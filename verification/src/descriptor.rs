//! Segment descriptors and their hardware bit layout.
//!
//! The low word of a descriptor holds, from bit 0 upwards: limit bits 0..16,
//! base bits 0..24, a 4-bit type, the code-or-data bit, a 2-bit privilege
//! level, the present bit, limit bits 16..20, four flag bits (of which bit 53
//! marks 64-bit code), and base bits 24..32. A system descriptor continues in
//! a second word with base bits 32..64 in its lower half and an upper half
//! that must be zero.

use vstd::prelude::*;
use crate::privilege::PrivilegeLevel;

verus! {

/// Bit 43: the segment holds code.
pub const DESCRIPTOR_EXECUTABLE: u64 = 0x0000_0800_0000_0000;

/// Bit 44: the descriptor is for code or data, not a system segment.
pub const DESCRIPTOR_USER_SEGMENT: u64 = 0x0000_1000_0000_0000;

/// Bit 47: the segment is present.
pub const DESCRIPTOR_PRESENT: u64 = 0x0000_8000_0000_0000;

/// Bit 53: the code segment runs in 64-bit mode.
pub const DESCRIPTOR_LONG_MODE: u64 = 0x0020_0000_0000_0000;

/// The type field of an available 64-bit Task State Segment, `0b1001`, in
/// its place at bits 40..44.
pub const DESCRIPTOR_AVAILABLE_TSS: u64 = 0x0000_0900_0000_0000;

/// The size in bytes of the hardware Task State Segment.
pub const TASK_STATE_SEGMENT_SIZE: u64 = 104;

/// An entry for a descriptor table.
#[derive(Clone, Copy, Debug, PartialEq, Eq, Structural)]
pub enum Descriptor {
    /// A code or data segment: one table slot.
    UserSegment(u64),
    /// A system segment, such as a Task State Segment: a low and a high
    /// word, in two adjacent table slots.
    SystemSegment(u64, u64),
}

/// Whether the present bit of a descriptor's low word is set.
pub open spec fn word_present(low: u64) -> bool {
    low & DESCRIPTOR_PRESENT != 0
}

/// Whether a descriptor's low word describes a code or data segment.
pub open spec fn word_user_segment(low: u64) -> bool {
    low & DESCRIPTOR_USER_SEGMENT != 0
}

/// Whether a descriptor's low word marks its segment as code.
pub open spec fn word_executable(low: u64) -> bool {
    low & DESCRIPTOR_EXECUTABLE != 0
}

/// Whether a descriptor's low word marks its segment as 64-bit code.
pub open spec fn word_long_mode(low: u64) -> bool {
    low & DESCRIPTOR_LONG_MODE != 0
}

/// The 2-bit privilege field of a descriptor's low word, bits 45 and 46.
pub open spec fn word_privilege(low: u64) -> u64 {
    (low >> 45) & 0x3
}

/// The 4-bit type field of a descriptor's low word, bits 40..44.
pub open spec fn word_type(low: u64) -> u64 {
    (low >> 40) & 0xf
}

/// The 20-bit segment limit held in a descriptor's low word.
pub open spec fn word_limit(low: u64) -> u64 {
    (low & 0xffff) | (((low >> 48) & 0xf) << 16)
}

/// The four flag bits of a descriptor's low word, bits 52..56.
pub open spec fn word_flags(low: u64) -> u64 {
    (low >> 52) & 0xf
}

/// The 64-bit base address held in the two words of a system descriptor.
pub open spec fn system_base(low: u64, high: u64) -> u64 {
    ((low >> 16) & 0xff_ffff) | (((low >> 56) & 0xff) << 24) | ((high & 0xffff_ffff) << 32)
}

/// The low word of the descriptor of a Task State Segment at `tss_base`.
pub open spec fn tss_low_word(tss_base: u64) -> u64 {
    DESCRIPTOR_PRESENT | DESCRIPTOR_AVAILABLE_TSS | ((tss_base & 0xff_ffff) << 16) | (((tss_base
        >> 24) & 0xff) << 56) | 103
}

/// The high word of the descriptor of a Task State Segment at `tss_base`.
pub open spec fn tss_high_word(tss_base: u64) -> u64 {
    tss_base >> 32
}

impl Descriptor {
    /// The word that carries the descriptor's type, privilege and flags.
    pub open spec fn low_word(self) -> u64 {
        match self {
            Descriptor::UserSegment(value) => value,
            Descriptor::SystemSegment(low, _) => low,
        }
    }

    /// The words that the descriptor puts into a table, in slot order.
    pub open spec fn words(self) -> Seq<u64> {
        match self {
            Descriptor::UserSegment(value) => seq![value],
            Descriptor::SystemSegment(low, high) => seq![low, high],
        }
    }

    /// The privilege level written in the descriptor.
    pub open spec fn spec_dpl(self) -> PrivilegeLevel {
        PrivilegeLevel::spec_from_low_bits(word_privilege(self.low_word()) as u16)
    }

    /// The descriptor of the kernel's 64-bit code segment: a present,
    /// executable, long-mode code segment of ring 0 with every other bit
    /// clear.
    pub open spec fn spec_kernel_code_segment() -> Descriptor {
        Descriptor::UserSegment(
            DESCRIPTOR_USER_SEGMENT | DESCRIPTOR_PRESENT | DESCRIPTOR_EXECUTABLE
                | DESCRIPTOR_LONG_MODE,
        )
    }

    /// The descriptor of a Task State Segment that lies at `tss_base`.
    pub open spec fn spec_tss_segment(tss_base: u64) -> Descriptor {
        Descriptor::SystemSegment(tss_low_word(tss_base), tss_high_word(tss_base))
    }

    /// The number of table slots the descriptor takes: 1 for a user
    /// segment, 2 for a system segment.
    pub fn slot_count(&self) -> (count: usize)
        ensures
            count == self.words().len(),
            count == (if *self is UserSegment { 1usize } else { 2usize }),
    {
        match self {
            Descriptor::UserSegment(_) => 1,
            Descriptor::SystemSegment(_, _) => 2,
        }
    }

    /// The privilege level written in the descriptor, read from bits 45 and
    /// 46 of its low word.
    #[verifier::when_used_as_spec(spec_dpl)]
    pub fn dpl(self) -> (level: PrivilegeLevel)
        ensures
            level == self.spec_dpl(),
    {
        let low: u64 = match self {
            Descriptor::UserSegment(value) => value,
            Descriptor::SystemSegment(low, _) => low,
        };
        let field: u64 = (low >> 45) & 0x3;
        assert(field <= 3) by (bit_vector)
            requires
                field == (low >> 45) & 0x3,
        ;
        PrivilegeLevel::from_low_bits(field as u16)
    }

    /// The descriptor of the kernel's 64-bit code segment.
    pub fn kernel_code_segment() -> (descriptor: Descriptor)
        ensures
            descriptor == Self::spec_kernel_code_segment(),
    {
        Descriptor::UserSegment(
            DESCRIPTOR_USER_SEGMENT | DESCRIPTOR_PRESENT | DESCRIPTOR_EXECUTABLE
                | DESCRIPTOR_LONG_MODE,
        )
    }

    /// The descriptor of a Task State Segment that lies at address
    /// `tss_base`: an available 64-bit TSS of ring 0, present, with a limit
    /// of one less than the segment's size.
    pub fn tss_segment(tss_base: u64) -> (descriptor: Descriptor)
        ensures
            descriptor == Self::spec_tss_segment(tss_base),
    {
        let base_low: u64 = (tss_base & 0xff_ffff) << 16;
        let base_middle: u64 = ((tss_base >> 24) & 0xff) << 56;
        let limit: u64 = TASK_STATE_SEGMENT_SIZE - 1;
        let low: u64 = DESCRIPTOR_PRESENT | DESCRIPTOR_AVAILABLE_TSS | base_low | base_middle
            | limit;
        let high: u64 = tss_base >> 32;
        Descriptor::SystemSegment(low, high)
    }
}

/// The kernel code descriptor is a present, executable, 64-bit code segment
/// of ring 0 and nothing else: its word is `0x0020_9800_0000_0000`.
pub proof fn lemma_kernel_code_segment_fields()
    ensures
        Descriptor::spec_kernel_code_segment() == Descriptor::UserSegment(0x0020_9800_0000_0000),
        word_present(Descriptor::spec_kernel_code_segment().low_word()),
        word_user_segment(Descriptor::spec_kernel_code_segment().low_word()),
        word_executable(Descriptor::spec_kernel_code_segment().low_word()),
        word_long_mode(Descriptor::spec_kernel_code_segment().low_word()),
        Descriptor::spec_kernel_code_segment().spec_dpl() == PrivilegeLevel::Ring0,
        Descriptor::spec_kernel_code_segment().words().len() == 1,
{
    assert(0x0000_1000_0000_0000u64 | 0x0000_8000_0000_0000u64 | 0x0000_0800_0000_0000u64
        | 0x0020_0000_0000_0000u64 == 0x0020_9800_0000_0000u64) by (bit_vector);
    assert(0x0020_9800_0000_0000u64 & 0x0000_8000_0000_0000u64 != 0) by (bit_vector);
    assert(0x0020_9800_0000_0000u64 & 0x0000_1000_0000_0000u64 != 0) by (bit_vector);
    assert(0x0020_9800_0000_0000u64 & 0x0000_0800_0000_0000u64 != 0) by (bit_vector);
    assert(0x0020_9800_0000_0000u64 & 0x0020_0000_0000_0000u64 != 0) by (bit_vector);
    assert((0x0020_9800_0000_0000u64 >> 45) & 0x3 == 0) by (bit_vector);
}

/// Every field of a Task State Segment descriptor reads back as it was
/// written: the base address it was made from, the limit 103, the type of
/// an available 64-bit TSS, present, ring 0, not a code or data segment, no
/// flag set, and a zero upper half of the high word.
pub proof fn lemma_tss_segment_fields(tss_base: u64)
    ensures
        system_base(tss_low_word(tss_base), tss_high_word(tss_base)) == tss_base,
        word_limit(tss_low_word(tss_base)) == TASK_STATE_SEGMENT_SIZE - 1,
        word_type(tss_low_word(tss_base)) == 0b1001,
        word_present(tss_low_word(tss_base)),
        !word_user_segment(tss_low_word(tss_base)),
        word_flags(tss_low_word(tss_base)) == 0,
        word_privilege(tss_low_word(tss_base)) == 0,
        tss_high_word(tss_base) >> 32 == 0,
        Descriptor::spec_tss_segment(tss_base).spec_dpl() == PrivilegeLevel::Ring0,
        Descriptor::spec_tss_segment(tss_base).words().len() == 2,
{
    let low = tss_low_word(tss_base);
    let high = tss_high_word(tss_base);
    assert(system_base(low, high) == tss_base) by (bit_vector)
        requires
            low == tss_low_word(tss_base),
            high == tss_high_word(tss_base),
    ;
    assert(word_limit(low) == 103) by (bit_vector)
        requires
            low == tss_low_word(tss_base),
    ;
    assert(word_type(low) == 0b1001) by (bit_vector)
        requires
            low == tss_low_word(tss_base),
    ;
    assert(word_present(low)) by (bit_vector)
        requires
            low == tss_low_word(tss_base),
    ;
    assert(!word_user_segment(low)) by (bit_vector)
        requires
            low == tss_low_word(tss_base),
    ;
    assert(word_flags(low) == 0) by (bit_vector)
        requires
            low == tss_low_word(tss_base),
    ;
    assert(word_privilege(low) == 0) by (bit_vector)
        requires
            low == tss_low_word(tss_base),
    ;
    assert(high >> 32 == 0) by (bit_vector)
        requires
            high == tss_high_word(tss_base),
    ;
}

} // verus!
