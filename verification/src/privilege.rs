//! Protection rings.

use vstd::prelude::*;

verus! {

/// One of the four protection rings of the processor, ring 0 being the most
/// privileged.
#[derive(Clone, Copy, Debug, PartialEq, Eq, Structural)]
pub enum PrivilegeLevel {
    Ring0,
    Ring1,
    Ring2,
    Ring3,
}

impl PrivilegeLevel {
    /// The ring's number, 0 to 3.
    pub open spec fn spec_bits(self) -> u16 {
        match self {
            PrivilegeLevel::Ring0 => 0,
            PrivilegeLevel::Ring1 => 1,
            PrivilegeLevel::Ring2 => 2,
            PrivilegeLevel::Ring3 => 3,
        }
    }

    /// The ring whose number is `value` modulo 4.
    pub open spec fn spec_from_low_bits(value: u16) -> PrivilegeLevel {
        let ring = value % 4;
        if ring == 0 {
            PrivilegeLevel::Ring0
        } else if ring == 1 {
            PrivilegeLevel::Ring1
        } else if ring == 2 {
            PrivilegeLevel::Ring2
        } else {
            PrivilegeLevel::Ring3
        }
    }

    /// The ring's number as it stands in a selector or a descriptor.
    #[verifier::when_used_as_spec(spec_bits)]
    pub fn bits(self) -> (value: u16)
        ensures
            value == self.spec_bits(),
            value <= 3,
    {
        match self {
            PrivilegeLevel::Ring0 => 0,
            PrivilegeLevel::Ring1 => 1,
            PrivilegeLevel::Ring2 => 2,
            PrivilegeLevel::Ring3 => 3,
        }
    }

    /// Reads a ring from the two lowest bits of `value`; higher bits are
    /// ignored.
    #[verifier::when_used_as_spec(spec_from_low_bits)]
    pub fn from_low_bits(value: u16) -> (ring: PrivilegeLevel)
        ensures
            ring == Self::spec_from_low_bits(value),
            ring.spec_bits() == value % 4,
    {
        let low: u16 = value % 4;
        if low == 0 {
            PrivilegeLevel::Ring0
        } else if low == 1 {
            PrivilegeLevel::Ring1
        } else if low == 2 {
            PrivilegeLevel::Ring2
        } else {
            PrivilegeLevel::Ring3
        }
    }
}

/// Reading back the number of a ring gives the ring.
pub proof fn lemma_ring_round_trip(ring: PrivilegeLevel)
    ensures
        PrivilegeLevel::spec_from_low_bits(ring.spec_bits()) == ring,
{
}

} // verus!
