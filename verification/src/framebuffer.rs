//! The choice of the display that diagnostic text is written to.

use vstd::prelude::*;
use crate::error::BootError;

verus! {

/// The index of the display to use among those the boot loader offers, or
/// `None` where it offers nothing to choose from: where it gave no answer
/// at all (`framebuffer_count` is `None`) or answered with no display.
pub open spec fn spec_select_framebuffer(framebuffer_count: Option<u64>) -> Option<usize> {
    match framebuffer_count {
        Some(count) if count >= 1 => Some(0usize),
        _ => None,
    }
}

/// Chooses the display to write to: the first one that the boot loader
/// offers.
///
/// `framebuffer_count` is the number of displays in the boot loader's
/// answer, or `None` if it gave no answer. Without a display the kernel has
/// no way to report anything, which is `BootError::MissingBootData`.
pub fn select_framebuffer(framebuffer_count: Option<u64>) -> (choice: Result<usize, BootError>)
    ensures
        choice == match spec_select_framebuffer(framebuffer_count) {
            Some(index) => Ok::<usize, BootError>(index),
            None => Err::<usize, BootError>(BootError::MissingBootData),
        },
        choice matches Ok(index) ==> framebuffer_count matches Some(count) && index < count,
{
    match framebuffer_count {
        Some(count) => {
            if count < 1 {
                Err(BootError::MissingBootData)
            } else {
                Ok(0)
            }
        },
        None => Err(BootError::MissingBootData),
    }
}

} // verus!
