//! Segment selectors.

use vstd::prelude::*;
use crate::privilege::PrivilegeLevel;

verus! {

/// The number of table slots a selector can address: its index field is 13
/// bits wide.
pub const SELECTOR_INDEX_LIMIT: u16 = 8192;

/// A 16-bit reference to a slot of a descriptor table, together with the
/// privilege level at which the slot is requested.
///
/// The slot's index stands in bits 3 to 15 and the privilege level in bits 0
/// and 1; bit 2, which would choose a local table, is always clear.
#[derive(Clone, Copy, Debug, PartialEq, Eq, Structural)]
pub struct SegmentSelector(pub u16);

impl SegmentSelector {
    /// The selector for slot `index` at privilege `rpl`: `index * 8 + rpl`,
    /// kept to 16 bits.
    pub open spec fn spec_new(index: u16, rpl: PrivilegeLevel) -> SegmentSelector {
        SegmentSelector((((index as int) * 8) % 0x1_0000 + rpl.spec_bits()) as u16)
    }

    /// The index of the slot that the selector refers to.
    pub open spec fn spec_index(self) -> u16 {
        self.0 / 8
    }

    /// The privilege level that the selector requests.
    pub open spec fn spec_rpl(self) -> PrivilegeLevel {
        PrivilegeLevel::spec_from_low_bits(self.0)
    }

    /// Packs a slot index and a privilege level into a selector.
    ///
    /// An index of `SELECTOR_INDEX_LIMIT` or more does not fit the index
    /// field; its upper bits are dropped.
    pub fn new(index: u16, rpl: PrivilegeLevel) -> (selector: SegmentSelector)
        ensures
            selector == Self::spec_new(index, rpl),
            index < SELECTOR_INDEX_LIMIT ==> selector.0 == index * 8 + rpl.spec_bits(),
    {
        let level: u16 = rpl.bits();
        let shifted: u16 = index << 3;
        proof {
            lemma_pack(index, level);
        }
        SegmentSelector(shifted | level)
    }

    /// The index of the slot that the selector refers to.
    #[verifier::when_used_as_spec(spec_index)]
    pub fn index(self) -> (index: u16)
        ensures
            index == self.spec_index(),
    {
        let raw: u16 = self.0;
        assert(raw >> 3 == raw / 8) by (bit_vector);
        raw >> 3
    }

    /// The privilege level that the selector requests.
    #[verifier::when_used_as_spec(spec_rpl)]
    pub fn rpl(self) -> (rpl: PrivilegeLevel)
        ensures
            rpl == self.spec_rpl(),
    {
        PrivilegeLevel::from_low_bits(self.0)
    }
}

/// Shifting an index into place and setting the two privilege bits is the
/// sum `index * 8 + level`, reduced to 16 bits.
proof fn lemma_pack(index: u16, level: u16)
    requires
        level <= 3,
    ensures
        (index << 3) | level == (((index as int) * 8) % 0x1_0000 + level) as u16,
        ((index as int) * 8) % 0x1_0000 + level < 0x1_0000,
        index < 8192 ==> ((index as int) * 8) % 0x1_0000 == index * 8,
{
    assert(level <= 3 ==> (index << 3) | level == (index * 8) % 0x1_0000 + level) by (bit_vector);
    assert(level <= 3 ==> (index * 8) % 0x1_0000 + level < 0x1_0000) by (bit_vector);
}

/// A selector made from an index that fits the index field gives back that
/// index and that privilege level.
pub proof fn lemma_selector_round_trip(index: u16, rpl: PrivilegeLevel)
    requires
        index < SELECTOR_INDEX_LIMIT,
    ensures
        SegmentSelector::spec_new(index, rpl).spec_index() == index,
        SegmentSelector::spec_new(index, rpl).spec_rpl() == rpl,
{
}

} // verus!
