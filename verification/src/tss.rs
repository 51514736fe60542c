//! The Task State Segment and the stack it reserves for double faults.

use vstd::prelude::*;
use crate::descriptor::TASK_STATE_SEGMENT_SIZE;

verus! {

/// The slot of the Interrupt Stack Table that holds the double-fault stack.
pub const DOUBLE_FAULT_IST_INDEX: u16 = 0;

/// The size in bytes of the double-fault stack: five pages.
pub const STACK_SIZE: usize = 4096 * 5;

/// The number of slots in the Interrupt Stack Table.
pub const INTERRUPT_STACK_COUNT: usize = 7;

/// The number of slots in the privilege stack table.
pub const PRIVILEGE_STACK_COUNT: usize = 3;

/// The fields of the hardware Task State Segment that software fills in.
///
/// Each table slot holds the address of the top of a stack, or zero where
/// no stack has been assigned.
#[derive(Clone, Copy, Debug)]
pub struct TaskStateSegment {
    /// The stacks that the processor switches to on a change to rings 0
    /// to 2.
    pub privilege_stack_table: [u64; 3],
    /// The stacks that an interrupt gate can ask for by number.
    pub interrupt_stack_table: [u64; 7],
    /// The offset of the I/O permission bitmap from the segment's start.
    pub iomap_base: u16,
}

/// The address one past the last byte of a region of `size` bytes that
/// begins at `start`: where a stack in that region starts to grow down.
pub open spec fn spec_stack_top(start: u64, size: usize) -> int {
    start + size
}

impl TaskStateSegment {
    /// Whether the segment assigns no stack at all and has no I/O
    /// permission bitmap.
    pub open spec fn is_blank(&self) -> bool {
        &&& forall|i: int|
            0 <= i < PRIVILEGE_STACK_COUNT ==> #[trigger] self.privilege_stack_table@[i] == 0
        &&& forall|i: int|
            0 <= i < INTERRUPT_STACK_COUNT ==> #[trigger] self.interrupt_stack_table@[i] == 0
        &&& self.iomap_base == TASK_STATE_SEGMENT_SIZE
    }

    /// Whether the segment is blank but for the double-fault slot, which
    /// holds `stack_top`.
    pub open spec fn holds_only_double_fault_stack(&self, stack_top: u64) -> bool {
        &&& forall|i: int|
            0 <= i < PRIVILEGE_STACK_COUNT ==> #[trigger] self.privilege_stack_table@[i] == 0
        &&& self.interrupt_stack_table@[DOUBLE_FAULT_IST_INDEX as int] == stack_top
        &&& forall|i: int|
            0 <= i < INTERRUPT_STACK_COUNT && i != DOUBLE_FAULT_IST_INDEX
                ==> #[trigger] self.interrupt_stack_table@[i] == 0
        &&& self.iomap_base == TASK_STATE_SEGMENT_SIZE
    }

    /// A segment that assigns no stack. The I/O permission bitmap is placed
    /// at the segment's end, which is to say that there is none.
    pub fn new() -> (tss: TaskStateSegment)
        ensures
            tss.is_blank(),
    {
        TaskStateSegment {
            privilege_stack_table: [0;3],
            interrupt_stack_table: [0;7],
            iomap_base: TASK_STATE_SEGMENT_SIZE as u16,
        }
    }

    /// The segment that the kernel boots with: blank, but for the
    /// double-fault slot, which holds the top of the `STACK_SIZE` bytes
    /// reserved at `stack_start`.
    pub fn with_double_fault_stack(stack_start: u64) -> (tss: TaskStateSegment)
        requires
            spec_stack_top(stack_start, STACK_SIZE) <= u64::MAX,
        ensures
            tss.holds_only_double_fault_stack(spec_stack_top(stack_start, STACK_SIZE) as u64),
    {
        let mut tss = TaskStateSegment::new();
        let stack_end: u64 = stack_start + STACK_SIZE as u64;
        tss.interrupt_stack_table[DOUBLE_FAULT_IST_INDEX as usize] = stack_end;
        tss
    }
}

} // verus!
