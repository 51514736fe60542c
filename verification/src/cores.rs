//! Execution units.

use vstd::prelude::*;

verus! {

/// One execution unit of the machine, known by its number.
///
/// The kernel boots on a single unit, number 0, which is the default. A
/// machine with more units gives each of them a boot sequence, and with it a
/// Task State Segment, of its own.
pub struct Core {
    id: u32,
}

impl Core {
    /// The unit's number.
    pub closed spec fn spec_id(&self) -> u32 {
        self.id
    }

    /// The unit's number.
    #[verifier::when_used_as_spec(spec_id)]
    pub fn id(&self) -> (id: u32)
        ensures
            id == self.spec_id(),
    {
        self.id
    }
}

impl Default for Core {
    /// The unit that the kernel boots on.
    fn default() -> (core: Self)
        ensures
            core.spec_id() == 0,
    {
        Self { id: 0 }
    }
}

} // verus!
