//! Interrupt Vector Table and the two exception handlers.
//!
//! The table maps exception numbers to handler entry points; the
//! double-fault entry is bound to the alternate-stack slot allocated by the
//! Descriptor Table Builder, so the handler runs on the reserved region
//! whatever the condition of the primary stack. The table must be built and
//! loaded only after the segment table and task structure are active.
//!
//! The breakpoint handler is recoverable: it emits one diagnostic record
//! and returns, and hardware resumes the interrupted context at the
//! following instruction. The double-fault handler is terminal: it emits a
//! diagnostic and hands the run to the exit protocol with `Failed`; the
//! faulting context is never resumed.

use vstd::prelude::*;

use crate::gdt::DOUBLE_FAULT_IST_INDEX;
use crate::qemu::QemuExitCode;
use crate::sink::Sink;
use crate::test::ok_suffix;

verus! {

/// Exception number of the breakpoint trap.
pub const BREAKPOINT_VECTOR: u8 = 3;

/// Exception number of the double fault.
pub const DOUBLE_FAULT_VECTOR: u8 = 8;

/// Number of entries the table carries: the hardware-defined exception
/// range.
pub const VECTOR_COUNT: usize = 32;

/// Handler entry points the table can name.
#[derive(Clone, Copy, PartialEq, Eq, Structural, Debug)]
pub enum HandlerKind {
    Breakpoint,
    DoubleFault,
}

/// One vector-table entry: a presence flag, the bound handler, and
/// optionally the alternate-stack slot hardware must switch to before
/// delivering the exception.
#[derive(Clone, Copy, PartialEq, Eq, Structural, Debug)]
pub struct VectorTableEntry {
    pub present: bool,
    pub handler: Option<HandlerKind>,
    pub stack_slot: Option<u16>,
}

/// The vector table: one entry per exception number.
pub struct VectorTable {
    pub entries: Vec<VectorTableEntry>,
}

impl VectorTable {
    pub open spec fn wf(self) -> bool {
        &&& self.entries@.len() == VECTOR_COUNT
        &&& forall|v: int|
            0 <= v < VECTOR_COUNT ==> ((#[trigger] self.entries@[v]).present <==> self.entries@[v].handler is Some)
    }
}

/// Builds the vector table: the breakpoint handler on its vector with no
/// alternate stack, the double-fault handler on its vector bound to the
/// reserved alternate-stack slot, every other entry absent. Loading the
/// table into the core — only valid once the segment table and task
/// structure are active — is the hardware glue's step.
#[verifier::loop_isolation(false)]
pub fn init_idt() -> (r: VectorTable)
    ensures
        r.wf(),
        r.entries@[BREAKPOINT_VECTOR as int] == (VectorTableEntry {
            present: true,
            handler: Some(HandlerKind::Breakpoint),
            stack_slot: None,
        }),
        r.entries@[DOUBLE_FAULT_VECTOR as int] == (VectorTableEntry {
            present: true,
            handler: Some(HandlerKind::DoubleFault),
            stack_slot: Some(DOUBLE_FAULT_IST_INDEX),
        }),
        forall|v: int|
            0 <= v < VECTOR_COUNT && v != BREAKPOINT_VECTOR && v != DOUBLE_FAULT_VECTOR ==> !(
            #[trigger] r.entries@[v]).present,
{
    let mut entries: Vec<VectorTableEntry> = Vec::new();
    let mut v: usize = 0;
    while v < VECTOR_COUNT
        invariant
            v <= VECTOR_COUNT,
            entries@.len() == v,
            forall|i: int|
                0 <= i < v ==> #[trigger] entries@[i] == (VectorTableEntry {
                    present: false,
                    handler: None,
                    stack_slot: None,
                }),
        decreases VECTOR_COUNT - v,
    {
        entries.push(VectorTableEntry { present: false, handler: None, stack_slot: None });
        v = v + 1;
    }
    entries[BREAKPOINT_VECTOR as usize] = VectorTableEntry {
        present: true,
        handler: Some(HandlerKind::Breakpoint),
        stack_slot: None,
    };
    entries[DOUBLE_FAULT_VECTOR as usize] = VectorTableEntry {
        present: true,
        handler: Some(HandlerKind::DoubleFault),
        stack_slot: Some(DOUBLE_FAULT_IST_INDEX),
    };
    VectorTable { entries }
}

/// Hardware-pushed snapshot delivered to a handler: instruction pointer,
/// flags, and the stack pointer at fault time.
#[derive(Clone, Copy, PartialEq, Eq, Structural, Debug)]
pub struct ExecutionContext {
    pub instruction_pointer: u64,
    pub flags: u64,
    pub stack_pointer: u64,
}

/// The lowercase hexadecimal digit for a value below sixteen.
pub open spec fn hex_digit(d: u8) -> u8 {
    if d < 10 {
        (0x30 + d) as u8
    } else {
        (0x57 + d) as u8
    }
}

/// The lowercase hexadecimal digits of `n`, most significant first, no
/// leading zeros (zero itself is one digit).
pub open spec fn spec_hex(n: u64) -> Seq<u8>
    decreases n,
{
    if n < 16 {
        seq![hex_digit(n as u8)]
    } else {
        spec_hex(n / 16) + seq![hex_digit((n % 16) as u8)]
    }
}

/// Appends the hexadecimal digits of `n` to `out`.
fn push_hex(n: u64, out: &mut Vec<u8>)
    ensures
        final(out)@ == old(out)@ + spec_hex(n),
    decreases n,
{
    let ghost mid = out@;
    if n >= 16 {
        push_hex(n / 16, out);
    }
    let d: u8 = (n % 16) as u8;
    let ch: u8 = if d < 10 {
        0x30 + d
    } else {
        0x57 + d
    };
    out.push(ch);
    proof {
        if n < 16 {
            assert(n % 16 == n);
            assert(out@ =~= mid + spec_hex(n));
        } else {
            assert(out@ =~= mid + (spec_hex(n / 16) + seq![hex_digit((n % 16) as u8)]));
        }
    }
}

/// The diagnostic record the breakpoint handler emits: it names the trap
/// and the triggering instruction pointer.
pub open spec fn breakpoint_record(instruction_pointer: u64) -> Seq<u8> {
    breakpoint_prefix() + spec_hex(instruction_pointer) + seq![0x0au8]
}

/// `"BREAKPOINT at 0x"`.
pub open spec fn breakpoint_prefix() -> Seq<u8> {
    seq![
        0x42u8, 0x52u8, 0x45u8, 0x41u8, 0x4bu8, 0x50u8, 0x4fu8, 0x49u8, 0x4eu8, 0x54u8, 0x20u8,
        0x61u8, 0x74u8, 0x20u8, 0x30u8, 0x78u8,
    ]
}

/// The diagnostic record the double-fault handler emits: the numeric error
/// code and the faulting instruction pointer.
pub open spec fn double_fault_record(instruction_pointer: u64, error_code: u64) -> Seq<u8> {
    double_fault_prefix() + spec_hex(error_code) + at_infix() + spec_hex(instruction_pointer)
        + seq![0x0au8]
}

/// `"DOUBLE FAULT code 0x"`.
pub open spec fn double_fault_prefix() -> Seq<u8> {
    seq![
        0x44u8, 0x4fu8, 0x55u8, 0x42u8, 0x4cu8, 0x45u8, 0x20u8, 0x46u8, 0x41u8, 0x55u8, 0x4cu8,
        0x54u8, 0x20u8, 0x63u8, 0x6fu8, 0x64u8, 0x65u8, 0x20u8, 0x30u8, 0x78u8,
    ]
}

/// `" at 0x"`.
pub open spec fn at_infix() -> Seq<u8> {
    seq![0x20u8, 0x61u8, 0x74u8, 0x20u8, 0x30u8, 0x78u8]
}

/// `"BREAKPOINT at 0x"` as bytes.
fn breakpoint_prefix_bytes() -> (r: Vec<u8>)
    ensures
        r@ == breakpoint_prefix(),
{
    let mut v: Vec<u8> = Vec::new();
    v.push(0x42);
    v.push(0x52);
    v.push(0x45);
    v.push(0x41);
    v.push(0x4b);
    v.push(0x50);
    v.push(0x4f);
    v.push(0x49);
    v.push(0x4e);
    v.push(0x54);
    v.push(0x20);
    v.push(0x61);
    v.push(0x74);
    v.push(0x20);
    v.push(0x30);
    v.push(0x78);
    proof {
        assert(v@ =~= breakpoint_prefix());
    }
    v
}

/// `"DOUBLE FAULT code 0x"` as bytes.
fn double_fault_prefix_bytes() -> (r: Vec<u8>)
    ensures
        r@ == double_fault_prefix(),
{
    let mut v: Vec<u8> = Vec::new();
    v.push(0x44);
    v.push(0x4f);
    v.push(0x55);
    v.push(0x42);
    v.push(0x4c);
    v.push(0x45);
    v.push(0x20);
    v.push(0x46);
    v.push(0x41);
    v.push(0x55);
    v.push(0x4c);
    v.push(0x54);
    v.push(0x20);
    v.push(0x63);
    v.push(0x6f);
    v.push(0x64);
    v.push(0x65);
    v.push(0x20);
    v.push(0x30);
    v.push(0x78);
    proof {
        assert(v@ =~= double_fault_prefix());
    }
    v
}

/// `" at 0x"` as bytes.
fn at_infix_bytes() -> (r: Vec<u8>)
    ensures
        r@ == at_infix(),
{
    let mut v: Vec<u8> = Vec::new();
    v.push(0x20);
    v.push(0x61);
    v.push(0x74);
    v.push(0x20);
    v.push(0x30);
    v.push(0x78);
    proof {
        assert(v@ =~= at_infix());
    }
    v
}

/// Breakpoint handler: emits one diagnostic record referencing the
/// triggering instruction pointer and returns; hardware resumes the
/// interrupted context at the following instruction, unchanged apart from
/// this sink output. It never alters control flow and never terminates the
/// process.
pub fn breakpoint_handler(context: &ExecutionContext, sink: &mut Sink)
    ensures
        final(sink)@ == old(sink)@ + breakpoint_record(context.instruction_pointer),
{
    let mut msg = breakpoint_prefix_bytes();
    push_hex(context.instruction_pointer, &mut msg);
    msg.push(0x0a);
    sink.write_bytes(msg.as_slice());
    proof {
        assert(msg@ =~= breakpoint_record(context.instruction_pointer));
    }
}

/// Double-fault handler: terminal. By hardware selection it runs on the
/// reserved alternate stack, independent of the primary stack's condition.
/// It emits one diagnostic record and hands the run to the exit protocol
/// with `Failed`; the faulting context is defined unrecoverable and is
/// never resumed.
pub fn double_fault_handler(context: &ExecutionContext, error_code: u64, sink: &mut Sink) -> (r:
    QemuExitCode)
    ensures
        final(sink)@ == old(sink)@ + double_fault_record(context.instruction_pointer, error_code),
        r == QemuExitCode::Failed,
{
    let mut msg = double_fault_prefix_bytes();
    push_hex(error_code, &mut msg);
    let mut infix = at_infix_bytes();
    msg.append(&mut infix);
    push_hex(context.instruction_pointer, &mut msg);
    msg.push(0x0a);
    sink.write_bytes(msg.as_slice());
    proof {
        assert(msg@ =~= double_fault_record(context.instruction_pointer, error_code));
    }
    QemuExitCode::Failed
}

/// Double-fault handler for a run whose one registered test is expected to
/// fault: the caught fault is the test's success, so it writes the success
/// marker and hands the run to the exit protocol with `Success`. Like the
/// ordinary double-fault handler it never returns to the faulting context.
pub fn test_double_fault_handler(
    _context: &ExecutionContext,
    _error_code: u64,
    sink: &mut Sink,
) -> (r: QemuExitCode)
    ensures
        final(sink)@ == old(sink)@ + ok_suffix(),
        r == QemuExitCode::Success,
{
    let mut msg: Vec<u8> = Vec::new();
    msg.push(0x5b);
    msg.push(0x6f);
    msg.push(0x6b);
    msg.push(0x5d);
    msg.push(0x0a);
    sink.write_bytes(msg.as_slice());
    proof {
        assert(msg@ =~= ok_suffix());
    }
    QemuExitCode::Success
}

} // verus!
