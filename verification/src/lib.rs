//! Verified construction of the x86-64 execution context used at boot:
//! segment descriptors and selectors, the Global Descriptor Table, the Task
//! State Segment, and the order in which the processor is told about them.
//!
//! Nothing here touches the hardware. The caller owns the memory, supplies
//! its addresses as plain numbers, and executes the privileged loads that
//! `boot::BootSequence::activate` hands out.

pub mod privilege;
pub mod selector;
pub mod descriptor;
pub mod error;
pub mod gdt;
pub mod tss;
pub mod boot;
pub mod cores;
pub mod framebuffer;
