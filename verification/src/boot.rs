//! The boot activation sequence: what is built before the processor is told
//! about it, and the order of the three privileged loads that tell it.
//!
//! The sequence only ever moves forward, from `Unconstructed` through
//! `Constructed` to `Loaded`. This module decides; the caller owns the
//! memory, supplies its addresses, and executes the loads it is handed.

use vstd::prelude::*;
use crate::descriptor::{Descriptor, tss_high_word, tss_low_word};
use crate::gdt::{
    table_with_all, DescriptorTablePointer, GlobalDescriptorTable, SegmentSelectors,
};
use crate::privilege::PrivilegeLevel;
use crate::selector::SegmentSelector;
use crate::tss::{spec_stack_top, TaskStateSegment, STACK_SIZE};

verus! {

/// How far the boot activation sequence has come.
#[derive(Clone, Copy, Debug, PartialEq, Eq, Structural)]
pub enum BootState {
    /// Nothing has been built.
    Unconstructed,
    /// The Task State Segment and the descriptor table exist; the processor
    /// does not use them yet.
    Constructed,
    /// The processor runs on the new table.
    Loaded,
}

/// One of the three privileged operations that make the processor use a
/// descriptor table.
#[derive(Clone, Copy, Debug, PartialEq, Eq, Structural)]
pub enum PrivilegedLoad {
    /// Load the descriptor-table register from a base and a limit.
    TableRegister(DescriptorTablePointer),
    /// Load the code-segment register from a selector.
    CodeSegmentRegister(SegmentSelector),
    /// Load the task register from a selector.
    TaskRegister(SegmentSelector),
}

/// What is built in the step from `Unconstructed` to `Constructed`.
pub struct BootImage {
    /// The Task State Segment, with its double-fault stack assigned.
    pub tss: TaskStateSegment,
    /// The address at which the hardware reads the Task State Segment.
    pub tss_base: u64,
    /// The descriptor table: null, kernel code, Task State Segment.
    pub table: GlobalDescriptorTable,
    /// The selectors of the table's two segments.
    pub selectors: SegmentSelectors,
}

/// The boot activation sequence of one processor.
pub struct BootSequence {
    image: Option<BootImage>,
    loaded: bool,
}

/// The words of the table that the kernel boots with, for a Task State
/// Segment at `tss_base`: the null descriptor, the kernel code segment, and
/// the two words of the Task State Segment's descriptor.
pub open spec fn spec_boot_table(tss_base: u64) -> Seq<u64> {
    seq![
        0u64,
        Descriptor::spec_kernel_code_segment().low_word(),
        tss_low_word(tss_base),
        tss_high_word(tss_base),
    ]
}

/// The selectors of the boot table's segments: slot 1 for the code segment
/// and slot 2 for the Task State Segment, both at ring 0.
pub open spec fn spec_boot_selectors() -> SegmentSelectors {
    SegmentSelectors {
        code_segment_selector: SegmentSelector(8),
        tss_segment_selector: SegmentSelector(16),
    }
}

/// The three loads that activate `image`, for a table whose slot 0 lies at
/// `table_base`, in the order in which they must be executed: first the
/// table register, then the code-segment register, then the task register.
pub open spec fn spec_activation_plan(image: BootImage, table_base: u64) -> Seq<PrivilegedLoad> {
    seq![
        PrivilegedLoad::TableRegister(image.table.spec_descriptor_table_pointer(table_base)),
        PrivilegedLoad::CodeSegmentRegister(image.selectors.code_segment_selector),
        PrivilegedLoad::TaskRegister(image.selectors.tss_segment_selector),
    ]
}

impl BootState {
    /// The state's place in the sequence: 0, 1 or 2.
    pub open spec fn rank(self) -> nat {
        match self {
            BootState::Unconstructed => 0,
            BootState::Constructed => 1,
            BootState::Loaded => 2,
        }
    }
}

impl BootImage {
    /// Whether the image is the one the kernel boots with, for a
    /// double-fault stack reserved at `stack_start` and a Task State Segment
    /// at `tss_base`.
    pub open spec fn is_built_for(&self, stack_start: u64, tss_base: u64) -> bool {
        &&& self.tss.holds_only_double_fault_stack(spec_stack_top(stack_start, STACK_SIZE) as u64)
        &&& self.tss_base == tss_base
        &&& self.table@ == spec_boot_table(tss_base)
        &&& self.selectors == spec_boot_selectors()
    }

    /// Builds the Task State Segment, then the table: the kernel code
    /// segment is inserted first and the Task State Segment's descriptor,
    /// which holds `tss_base`, second.
    pub fn build(stack_start: u64, tss_base: u64) -> (image: BootImage)
        requires
            spec_stack_top(stack_start, STACK_SIZE) <= u64::MAX,
        ensures
            image.is_built_for(stack_start, tss_base),
    {
        let tss = TaskStateSegment::with_double_fault_stack(stack_start);
        let mut table = GlobalDescriptorTable::new();
        let code_segment_selector = table.add(Descriptor::kernel_code_segment());
        let tss_segment_selector = table.add(Descriptor::tss_segment(tss_base));
        proof {
            crate::descriptor::lemma_kernel_code_segment_fields();
            crate::descriptor::lemma_tss_segment_fields(tss_base);
            assert(table@ =~= spec_boot_table(tss_base));
        }
        BootImage {
            tss,
            tss_base,
            table,
            selectors: SegmentSelectors { code_segment_selector, tss_segment_selector },
        }
    }

    /// The three loads that activate the image, in the order in which they
    /// must be executed, for a table whose slot 0 lies at `table_base`.
    pub fn activation_plan(&self, table_base: u64) -> (plan: [PrivilegedLoad; 3])
        requires
            self.table@.len() >= 1,
        ensures
            plan@ == spec_activation_plan(*self, table_base),
    {
        let plan = [
            PrivilegedLoad::TableRegister(self.table.as_descriptor_table_pointer(table_base)),
            PrivilegedLoad::CodeSegmentRegister(self.selectors.code_segment_selector),
            PrivilegedLoad::TaskRegister(self.selectors.tss_segment_selector),
        ];
        proof {
            assert(plan@ =~= spec_activation_plan(*self, table_base));
        }
        plan
    }
}

impl BootSequence {
    #[verifier::type_invariant]
    spec fn coherent(self) -> bool {
        &&& self.loaded ==> self.image is Some
        &&& self.image matches Some(image) ==> {
            &&& image.table@ == spec_boot_table(image.tss_base)
            &&& image.selectors == spec_boot_selectors()
        }
    }

    /// How far the sequence has come.
    pub closed spec fn spec_state(&self) -> BootState {
        if self.image is None {
            BootState::Unconstructed
        } else if self.loaded {
            BootState::Loaded
        } else {
            BootState::Constructed
        }
    }

    /// What has been built, if anything has.
    pub closed spec fn spec_image(&self) -> Option<BootImage> {
        self.image
    }

    /// A sequence that has not begun.
    pub fn new() -> (sequence: BootSequence)
        ensures
            sequence.spec_state() == BootState::Unconstructed,
            sequence.spec_image() is None,
    {
        BootSequence { image: None, loaded: false }
    }

    /// How far the sequence has come.
    #[verifier::when_used_as_spec(spec_state)]
    pub fn state(&self) -> (state: BootState)
        ensures
            state == self.spec_state(),
    {
        if self.image.is_none() {
            BootState::Unconstructed
        } else if self.loaded {
            BootState::Loaded
        } else {
            BootState::Constructed
        }
    }

    /// What has been built, if anything has.
    pub fn image(&self) -> (image: Option<&BootImage>)
        ensures
            image is Some <==> self.spec_state() != BootState::Unconstructed,
            image matches Some(built) ==> {
                &&& self.spec_image() == Some(*built)
                &&& built.table@ == spec_boot_table(built.tss_base)
                &&& built.selectors == spec_boot_selectors()
            },
    {
        proof {
            use_type_invariant(self);
        }
        self.image.as_ref()
    }

    /// The step from `Unconstructed` to `Constructed`.
    ///
    /// The first call builds the image and returns `true`. Every later call
    /// changes nothing, whatever its arguments, and returns `false`.
    pub fn construct(&mut self, stack_start: u64, tss_base: u64) -> (built: bool)
        requires
            spec_stack_top(stack_start, STACK_SIZE) <= u64::MAX,
        ensures
            built <==> old(self).spec_state() == BootState::Unconstructed,
            built ==> {
                &&& final(self).spec_state() == BootState::Constructed
                &&& final(self).spec_image() matches Some(image)
                &&& image.is_built_for(stack_start, tss_base)
            },
            !built ==> *final(self) == *old(self),
    {
        if self.image.is_none() {
            proof {
                use_type_invariant(&*self);
            }
            self.image = Some(BootImage::build(stack_start, tss_base));
            true
        } else {
            false
        }
    }

    /// The step from `Constructed` to `Loaded`.
    ///
    /// In state `Constructed` it returns the three loads to execute, in
    /// order, for a table whose slot 0 lies at `table_base`, and the
    /// sequence is `Loaded`. In any other state there is nothing to load:
    /// it returns `None` and changes nothing.
    pub fn activate(&mut self, table_base: u64) -> (plan: Option<[PrivilegedLoad; 3]>)
        ensures
            plan is Some <==> old(self).spec_state() == BootState::Constructed,
            plan matches Some(loads) ==> {
                &&& final(self).spec_state() == BootState::Loaded
                &&& final(self).spec_image() == old(self).spec_image()
                &&& old(self).spec_image() matches Some(image)
                &&& loads@ == spec_activation_plan(image, table_base)
                &&& loads@ == spec_boot_activation_plan(table_base)
            },
            plan is None ==> *final(self) == *old(self),
    {
        proof {
            use_type_invariant(&*self);
        }
        if self.loaded {
            return None;
        }
        match &self.image {
            None => None,
            Some(image) => {
                let loads = image.activation_plan(table_base);
                self.loaded = true;
                Some(loads)
            },
        }
    }
}

/// The activation plan of the boot table: a table register load with limit
/// 31, the code-segment selector `0x08`, the task-register selector `0x10`.
pub open spec fn spec_boot_activation_plan(table_base: u64) -> Seq<PrivilegedLoad> {
    seq![
        PrivilegedLoad::TableRegister(DescriptorTablePointer { limit: 31, base: table_base }),
        PrivilegedLoad::CodeSegmentRegister(SegmentSelector(8)),
        PrivilegedLoad::TaskRegister(SegmentSelector(16)),
    ]
}

/// The boot table is what two insertions into a fresh table leave: the
/// kernel code segment goes to slot 1, the Task State Segment's descriptor
/// to slots 2 and 3, and the table then holds 4 slots. The boot selectors
/// are those that the two insertions return: slots 1 and 2, at the ring
/// written in each descriptor, which is ring 0.
pub proof fn lemma_boot_layout(tss_base: u64)
    ensures
        spec_boot_table(tss_base) == table_with_all(
            seq![0u64],
            seq![Descriptor::spec_kernel_code_segment(), Descriptor::spec_tss_segment(tss_base)],
        ),
        spec_boot_table(tss_base).len() == 4,
        spec_boot_table(tss_base)[0] == 0,
        spec_boot_selectors().code_segment_selector == SegmentSelector::spec_new(
            1,
            Descriptor::spec_kernel_code_segment().spec_dpl(),
        ),
        spec_boot_selectors().tss_segment_selector == SegmentSelector::spec_new(
            2,
            Descriptor::spec_tss_segment(tss_base).spec_dpl(),
        ),
        spec_boot_selectors().code_segment_selector.spec_index() == 1,
        spec_boot_selectors().code_segment_selector.spec_rpl() == PrivilegeLevel::Ring0,
        spec_boot_selectors().tss_segment_selector.spec_index() == 2,
        spec_boot_selectors().tss_segment_selector.spec_rpl() == PrivilegeLevel::Ring0,
{
    let code = Descriptor::spec_kernel_code_segment();
    let tss = Descriptor::spec_tss_segment(tss_base);
    let entries = seq![code, tss];
    crate::descriptor::lemma_kernel_code_segment_fields();
    crate::descriptor::lemma_tss_segment_fields(tss_base);
    assert(entries.drop_last() =~= seq![code]);
    assert(entries.drop_last().drop_last() =~= Seq::<Descriptor>::empty());
    assert(table_with_all(seq![0u64], Seq::<Descriptor>::empty()) == seq![0u64]);
    assert(table_with_all(seq![0u64], seq![code]) =~= seq![0u64, code.low_word()]) by {
        assert(seq![code].drop_last() =~= Seq::<Descriptor>::empty());
        assert(seq![code].last() == code);
    }
    assert(entries.last() == tss);
    assert(table_with_all(seq![0u64], entries) =~= spec_boot_table(tss_base));
}

} // verus!
