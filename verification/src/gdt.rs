//! Descriptor Table Builder.
//!
//! Constructs the segment table — a code-segment descriptor and a
//! task-structure descriptor — together with the task structure whose
//! Interrupt Stack Table carries the top address of the reserved
//! double-fault stack region. The structures are built once, before
//! interrupts are enabled, and never mutated or released; loading them into
//! the core is a privileged hardware operation outside the verified
//! library.

use vstd::prelude::*;

verus! {

/// The alternate-stack slot dedicated to the double-fault handler. Every
/// configuration resolves the double-fault vector to this same slot.
pub const DOUBLE_FAULT_IST_INDEX: u16 = 0;

/// Number of alternate-stack slots in the task structure.
pub const IST_SLOTS: usize = 7;

/// Size in bytes of the reserved double-fault stack region.
pub const DOUBLE_FAULT_STACK_SIZE: u64 = 4096 * 5;

/// Upper bound on the stack the double-fault handler needs to run to
/// completion without re-faulting; the reserved region must be at least
/// this large.
pub const DOUBLE_FAULT_HANDLER_STACK_NEED: u64 = 4096;

/// A contiguous stack region `[base, base + size)`. Stacks grow downward,
/// so the address handed to hardware is the top, `base + size`. A reserved
/// region is dedicated to one alternate-stack slot, never overlaps any
/// other stack, and stays valid for the lifetime of the process.
#[derive(Clone, Copy, PartialEq, Eq, Structural, Debug)]
pub struct StackRegion {
    pub base: u64,
    pub size: u64,
}

impl StackRegion {
    pub open spec fn wf(self) -> bool {
        0 < self.size && self.base + self.size <= u64::MAX
    }

    /// One past the highest byte: the address hardware starts the stack at.
    pub open spec fn spec_top(self) -> int {
        self.base + self.size
    }

    /// The regions share no address.
    pub open spec fn disjoint_from(self, other: StackRegion) -> bool {
        self.base + self.size <= other.base || other.base + other.size <= self.base
    }

    pub fn top(&self) -> (r: u64)
        requires
            self.wf(),
        ensures
            r == self.spec_top(),
    {
        self.base + self.size
    }
}

/// The kind of one segment-table entry.
#[derive(Clone, Copy, PartialEq, Eq, Structural, Debug)]
pub enum DescriptorKind {
    CodeSegment,
    TaskSegment,
}

/// One entry of the segment table, carrying the selector index used to
/// reference it later.
#[derive(Clone, Copy, PartialEq, Eq, Structural, Debug)]
pub struct SegmentDescriptor {
    pub kind: DescriptorKind,
    pub selector: u16,
}

/// The segment table: descriptors in the order they were added, after the
/// mandatory null entry at selector index zero.
pub struct DescriptorTable {
    pub entries: Vec<SegmentDescriptor>,
}

/// The process-wide task structure: a fixed-size array of alternate
/// stack-top addresses, one per slot; a slot holding zero is unused.
pub struct TaskStructure {
    pub interrupt_stack_table: Vec<u64>,
}

/// Everything the builder constructs: the table, the two selectors, the
/// task structure, and the reserved double-fault stack region recorded in
/// it.
pub struct SegmentSetup {
    pub table: DescriptorTable,
    pub code_selector: u16,
    pub task_selector: u16,
    pub task: TaskStructure,
    pub double_fault_stack: StackRegion,
}

impl SegmentSetup {
    pub open spec fn wf(self) -> bool {
        &&& self.table.entries@.len() == 2
        &&& self.table.entries@[0] == (SegmentDescriptor {
            kind: DescriptorKind::CodeSegment,
            selector: self.code_selector,
        })
        &&& self.table.entries@[1] == (SegmentDescriptor {
            kind: DescriptorKind::TaskSegment,
            selector: self.task_selector,
        })
        &&& self.code_selector != self.task_selector
        &&& self.task.interrupt_stack_table@.len() == IST_SLOTS
        &&& self.double_fault_stack.wf()
        &&& self.double_fault_stack.size == DOUBLE_FAULT_STACK_SIZE
        &&& self.task.interrupt_stack_table@[DOUBLE_FAULT_IST_INDEX as int]
            == self.double_fault_stack.spec_top()
        &&& forall|s: int|
            0 <= s < IST_SLOTS && s != DOUBLE_FAULT_IST_INDEX
                ==> self.task.interrupt_stack_table@[s] == 0
    }
}

/// Builds the segment table and task structure: a code-segment descriptor,
/// a task-structure descriptor, and the reserved double-fault stack region
/// at `stack_base`, whose top address is recorded in the dedicated
/// alternate-stack slot. All other slots stay unused. Returns the table
/// with the two selectors; activating them on the core is the hardware
/// glue's one later step.
#[verifier::loop_isolation(false)]
pub fn build(stack_base: u64) -> (r: SegmentSetup)
    requires
        0 < stack_base,
        stack_base + DOUBLE_FAULT_STACK_SIZE <= u64::MAX,
    ensures
        r.wf(),
        r.double_fault_stack == (StackRegion { base: stack_base, size: DOUBLE_FAULT_STACK_SIZE }),
        r.code_selector == 1,
        r.task_selector == 2,
{
    let double_fault_stack = StackRegion { base: stack_base, size: DOUBLE_FAULT_STACK_SIZE };
    let mut entries: Vec<SegmentDescriptor> = Vec::new();
    entries.push(SegmentDescriptor { kind: DescriptorKind::CodeSegment, selector: 1 });
    entries.push(SegmentDescriptor { kind: DescriptorKind::TaskSegment, selector: 2 });
    let mut interrupt_stack_table: Vec<u64> = Vec::new();
    interrupt_stack_table.push(double_fault_stack.top());
    let mut s: usize = 1;
    while s < IST_SLOTS
        invariant
            1 <= s <= IST_SLOTS,
            interrupt_stack_table@.len() == s,
            interrupt_stack_table@[0] == double_fault_stack.spec_top(),
            forall|j: int| 1 <= j < s ==> interrupt_stack_table@[j] == 0,
        decreases IST_SLOTS - s,
    {
        interrupt_stack_table.push(0);
        s = s + 1;
    }
    SegmentSetup {
        table: DescriptorTable { entries },
        code_selector: 1,
        task_selector: 2,
        task: TaskStructure { interrupt_stack_table },
        double_fault_stack,
    }
}

} // verus!
