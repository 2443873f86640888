//! Fault-isolation and self-verification core of a freestanding kernel.
//!
//! The crate holds the verified logic of the core: the descriptor-table
//! builder with its reserved alternate stack, the interrupt vector table and
//! the two exception handlers, the test harness with its exit protocol, and
//! the character-grid text sink. The hardware-facing glue — port writes,
//! memory-mapped video, loading the tables into the core — lives outside the
//! verified library and hands plain values in and out.

use vstd::prelude::*;

pub mod gdt;
pub mod interrupts;
pub mod qemu;
pub mod sink;
pub mod test;
pub mod vga;

use gdt::DOUBLE_FAULT_HANDLER_STACK_NEED;
use gdt::DOUBLE_FAULT_IST_INDEX;
use gdt::DOUBLE_FAULT_STACK_SIZE;
use gdt::SegmentSetup;
use gdt::StackRegion;
use interrupts::DOUBLE_FAULT_VECTOR;
use interrupts::HandlerKind;
use interrupts::VectorTable;

verus! {

/// The two operating states of the protection subsystem. Before both tables
/// are loaded any fault is catastrophic; after, breakpoint faults recover
/// and stack-overflow double faults are caught. The transition is the
/// one-time ordered activation sequence in `init`; there is no reverse
/// transition.
#[derive(Clone, Copy, PartialEq, Eq, Structural, Debug)]
pub enum ProtectionState {
    Unprotected,
    Protected,
}

/// The one-time configuration `init` produces: the activated segment
/// structures, the loaded vector table, and the primary execution stack the
/// reserved region must keep clear of.
pub struct KernelConfig {
    pub segments: SegmentSetup,
    pub vectors: VectorTable,
    pub primary_stack: StackRegion,
    pub state: ProtectionState,
}

impl KernelConfig {
    pub open spec fn wf(self) -> bool {
        &&& self.segments.wf()
        &&& self.vectors.wf()
        &&& self.primary_stack.wf()
        &&& self.segments.double_fault_stack.disjoint_from(self.primary_stack)
        &&& self.vectors.entries@[DOUBLE_FAULT_VECTOR as int].present
        &&& self.vectors.entries@[DOUBLE_FAULT_VECTOR as int].handler == Some(
            HandlerKind::DoubleFault,
        )
        &&& self.vectors.entries@[DOUBLE_FAULT_VECTOR as int].stack_slot == Some(
            DOUBLE_FAULT_IST_INDEX,
        )
        &&& self.state is Protected
    }
}

/// The one-time, ordered activation sequence: builds the segment table and
/// task structure first, the vector table only after, and ends in the
/// `Protected` state. The reserved double-fault stack is placed at
/// `double_fault_stack_base` and must not overlap the primary execution
/// stack — misconfiguration here is prevented by construction, never
/// detected later.
pub fn init(double_fault_stack_base: u64, primary_stack: StackRegion) -> (r: KernelConfig)
    requires
        primary_stack.wf(),
        0 < double_fault_stack_base,
        double_fault_stack_base + DOUBLE_FAULT_STACK_SIZE <= u64::MAX,
        (StackRegion {
            base: double_fault_stack_base,
            size: DOUBLE_FAULT_STACK_SIZE,
        }).disjoint_from(primary_stack),
    ensures
        r.wf(),
        r.segments.double_fault_stack == (StackRegion {
            base: double_fault_stack_base,
            size: DOUBLE_FAULT_STACK_SIZE,
        }),
        r.primary_stack == primary_stack,
        r.state is Protected,
{
    let segments = gdt::build(double_fault_stack_base);
    let vectors = interrupts::init_idt();
    KernelConfig { segments, vectors, primary_stack, state: ProtectionState::Protected }
}

/// Law: in every well-formed protected configuration the reserved
/// double-fault stack region and the primary execution stack occupy
/// disjoint address ranges, the reserved region is large enough to run the
/// double-fault handler to completion without re-faulting, and its top
/// address is what the dedicated alternate-stack slot holds.
pub proof fn lemma_double_fault_stack_isolated(config: KernelConfig)
    requires
        config.wf(),
    ensures
        config.segments.double_fault_stack.disjoint_from(config.primary_stack),
        config.segments.double_fault_stack.size >= DOUBLE_FAULT_HANDLER_STACK_NEED,
        config.segments.task.interrupt_stack_table@[DOUBLE_FAULT_IST_INDEX as int]
            == config.segments.double_fault_stack.spec_top(),
{
}

} // verus!
