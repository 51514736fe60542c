//! The ways in which bringing up the execution context can fail.

use vstd::prelude::*;

verus! {

/// A failure during boot. Neither kind can be recovered from: the caller is
/// expected to stop the processor.
#[derive(Clone, Copy, Debug, PartialEq, Eq, Structural)]
pub enum BootError {
    /// An insertion into the descriptor table needs more free slots than
    /// remain.
    CapacityExceeded,
    /// The boot loader did not hand over data that the kernel cannot do
    /// without, such as a display to write to.
    MissingBootData,
}

} // verus!
