//! Theorems about the instruction set.
//!
//! Each is stated over the model of [`crate::semantics`], which the
//! executable machine is proved to follow.
use vstd::prelude::*;
use crate::device::{port_of, slot_of};
use crate::error::UxnError;
use crate::mode::InstructionMode;
use crate::opcode::{Opcode, BREAK};
use crate::semantics;
use crate::semantics::{
    acknowledge, dispatch, eval, eval_writes, execute, instruction_request, pop2, pop3, prepare,
    push2, push3, reply_at, request, run_writes, step, Cycle, DeviceReply, DeviceRequest,
};
use crate::state::{low, wrap_address, MachineState, StackState};

verus! {

/// The width in bytes of an operand: two with the Short flag, else one.
pub open spec fn width(short: bool) -> int {
    if short {
        2
    } else {
        1
    }
}

/// Popping from an empty stack fails with `StackUnderflow` and changes
/// nothing: the pointer stays at 0.
pub proof fn pop_from_empty_stack(s: MachineState, mode: InstructionMode)
    requires
        s.stack(mode.ret()).cursor(mode.keep()) == 0,
    ensures
        s.pop(mode) == (s, Err::<u16, UxnError>(UxnError::StackUnderflow)),
        s.pop(mode).0.stack(mode.ret()).ptr == s.stack(mode.ret()).ptr,
{
    let st = s.stack(mode.ret());
    assert(s.with_stack(mode.ret(), st) == s);
}

/// `DIV` with a zero divisor on top of the stack fails with
/// `DivisionByZero`, whatever lies below, and moves no pointer: the machine
/// is left as the instruction found it.
pub proof fn division_by_zero(
    s: MachineState,
    mode: InstructionMode,
    reply: DeviceReply,
)
    requires
        prepare(s, mode).top(mode) == Ok::<u16, UxnError>(0),
    ensures
        execute(s, Opcode::DIV, mode, reply) == (
            prepare(s, mode),
            Err::<(), UxnError>(UxnError::DivisionByZero),
        ),
        execute(s, Opcode::DIV, mode, reply).0.wst.ptr == s.wst.ptr,
        execute(s, Opcode::DIV, mode, reply).0.rst.ptr == s.rst.ptr,
        !mode.keep() ==> execute(s, Opcode::DIV, mode, reply).0 == s,
{
}

/// A program that is the break byte alone ends at once and well: nothing
/// but the program counter changes, which stands behind the byte.
pub proof fn break_ends_at_once(
    s: MachineState,
    start: u16,
    replies: Seq<DeviceReply>,
    budget: nat,
)
    requires
        s.wf(),
        start != 0,
        !s.halted,
        budget > 0,
        s.ram[start as int] == BREAK,
    ensures
        eval(s, start, replies, budget) == (
            MachineState { pc: wrap_address(start as int, 1) as u16, ..s },
            Ok::<(), UxnError>(()),
        ),
{
}

/// An evaluation from address 0, or on a halted machine, sets the program
/// counter and does nothing else.
pub proof fn nothing_runs_from_zero_or_halted(
    s: MachineState,
    start: u16,
    replies: Seq<DeviceReply>,
    budget: nat,
)
    requires
        start == 0 || s.halted,
    ensures
        eval(s, start, replies, budget) == (
            MachineState { pc: start, ..s },
            Ok::<(), UxnError>(()),
        ),
{
}

/// The port through which the system device shows the depth of the stack
/// that `mode` selects: `0x02` for the working stack, `0x03` for the return
/// stack.
pub open spec fn pointer_port(mode: InstructionMode) -> u8 {
    if mode.ret() {
        0x03
    } else {
        0x02
    }
}

/// The instruction addresses the pointer of its own stack through the system
/// device: it is a `DEI` or a `DEO` whose port address, the byte on top of
/// the stack, names slot 0 and the pointer port of the stack that `mode`
/// selects.
pub open spec fn addresses_own_pointer(s: MachineState, op: Opcode, mode: InstructionMode) -> bool {
    &&& op == Opcode::DEI || op == Opcode::DEO
    &&& s.stack(mode.ret()).pop8(false).1 matches Ok(a)
    &&& slot_of(a) == 0
    &&& port_of(a) == pointer_port(mode)
}

/// The stack that `mode` selects has after `t` the depth it has in `s`.
pub open spec fn same_depth(s: MachineState, t: MachineState, mode: InstructionMode) -> bool {
    t.stack(mode.ret()).ptr == s.stack(mode.ret()).ptr
}

/// Under the Keep flag `LIT`, `INC`, the jumps, `STH`, `SFT` and `DIV` leave
/// the depth as it was.
proof fn keep_depth_moves(s: MachineState, mode: InstructionMode)
    requires
        mode.keep(),
    ensures
        same_depth(s, semantics::lit(s, mode).0, mode),
        same_depth(s, semantics::inc(s, mode).0, mode),
        same_depth(s, semantics::jmp(s, mode).0, mode),
        same_depth(s, semantics::jcn(s, mode).0, mode),
        same_depth(s, semantics::jsr(s, mode).0, mode),
        same_depth(s, semantics::sth(s, mode).0, mode),
        same_depth(s, semantics::sft(s, mode).0, mode),
        same_depth(s, semantics::div(s, mode).0, mode),
{
}

/// Under the Keep flag the instructions that only move values leave the
/// depth as it was.
proof fn keep_depth_shuffle(s: MachineState, op: Opcode, mode: InstructionMode)
    requires
        mode.keep(),
    ensures
        same_depth(s, semantics::shuffle(s, op, mode).0, mode),
{
}

/// Under the Keep flag the comparisons and the arithmetic leave the depth
/// as it was.
proof fn keep_depth_binary(s: MachineState, op: Opcode, mode: InstructionMode)
    requires
        mode.keep(),
    ensures
        same_depth(s, semantics::compare(s, op, mode).0, mode),
        same_depth(s, semantics::arithmetic(s, op, mode).0, mode),
{
}

/// Under the Keep flag the loads and the stores leave the depth as it was.
proof fn keep_depth_memory(s: MachineState, op: Opcode, mode: InstructionMode)
    requires
        mode.keep(),
    ensures
        same_depth(s, semantics::load(s, op, mode).0, mode),
        same_depth(s, semantics::store(s, op, mode).0, mode),
{
}

/// Under the Keep flag `DEI` leaves the depth as it was, and so does a
/// `DEO` that does not write it.
proof fn keep_depth_devices(s: MachineState, op: Opcode, mode: InstructionMode, reply: DeviceReply)
    requires
        mode.keep(),
        s.wst.kptr == s.wst.ptr,
        s.rst.kptr == s.rst.ptr,
        !(op == Opcode::DEO && addresses_own_pointer(s, op, mode)),
    ensures
        same_depth(s, semantics::dei(s, mode, reply).0, mode),
        op == Opcode::DEO ==> same_depth(s, semantics::deo(s, mode, reply).0, mode),
{
}

/// Under the Keep flag an instruction leaves the depth of its stack as it
/// was.  The one exception is a `DEO` that writes that depth itself, through
/// the pointer port of the system device.
pub proof fn keep_leaves_the_depth(
    s: MachineState,
    op: Opcode,
    mode: InstructionMode,
    reply: DeviceReply,
)
    requires
        mode.keep(),
        !(op == Opcode::DEO && addresses_own_pointer(s, op, mode)),
    ensures
        execute(s, op, mode, reply).0.stack(mode.ret()).ptr == s.stack(mode.ret()).ptr,
{
    let s0 = prepare(s, mode);
    assert(same_depth(s, s0, mode));
    keep_depth_moves(s0, mode);
    keep_depth_shuffle(s0, op, mode);
    keep_depth_binary(s0, op, mode);
    keep_depth_memory(s0, op, mode);
    if op == Opcode::DEI || op == Opcode::DEO {
        assert(addresses_own_pointer(s0, op, mode) == addresses_own_pointer(s, op, mode));
        keep_depth_devices(s0, op, mode, reply);
    }
}

/// How the state that an instruction leaves under the Keep flag compares to
/// the state it leaves without: memory, the program counter and the halt
/// flag are the same; both stacks hold the same bytes; the other stack has
/// the same depth; and on the stack of the instruction the shadow pointer
/// stands where without the flag the live pointer would stand.
pub open spec fn mirrors(kept: MachineState, plain: MachineState, ret: bool) -> bool {
    &&& kept.ram == plain.ram
    &&& kept.pc == plain.pc
    &&& kept.halted == plain.halted
    &&& kept.stack(ret).data == plain.stack(ret).data
    &&& kept.stack(ret).kptr == plain.stack(ret).ptr
    &&& kept.stack(!ret).data == plain.stack(!ret).data
    &&& kept.stack(!ret).ptr == plain.stack(!ret).ptr
}

/// The two modes differ in the Keep flag alone: `kept` has it, `plain` has
/// not.
pub open spec fn keep_added(kept: InstructionMode, plain: InstructionMode) -> bool {
    &&& kept.keep()
    &&& !plain.keep()
    &&& kept.short() == plain.short()
    &&& kept.ret() == plain.ret()
}

/// The two outcomes agree: the same result, and states of which the first
/// mirrors the second.
pub open spec fn agree<T>(
    kept: (MachineState, Result<T, UxnError>),
    plain: (MachineState, Result<T, UxnError>),
    ret: bool,
) -> bool {
    kept.1 == plain.1 && mirrors(kept.0, plain.0, ret)
}

/// `LIT`, `INC`, the jumps, `STH`, `SFT` and `DIV` take mirrored states to
/// mirrored states, with the same result.
proof fn keep_same_moves(k: MachineState, p: MachineState, kept: InstructionMode, plain: InstructionMode)
    requires
        keep_added(kept, plain),
        mirrors(k, p, plain.ret()),
    ensures
        agree(semantics::lit(k, kept), semantics::lit(p, plain), plain.ret()),
        agree(semantics::inc(k, kept), semantics::inc(p, plain), plain.ret()),
        agree(semantics::jmp(k, kept), semantics::jmp(p, plain), plain.ret()),
        agree(semantics::jcn(k, kept), semantics::jcn(p, plain), plain.ret()),
        agree(semantics::jsr(k, kept), semantics::jsr(p, plain), plain.ret()),
        agree(semantics::sth(k, kept), semantics::sth(p, plain), plain.ret()),
        agree(semantics::sft(k, kept), semantics::sft(p, plain), plain.ret()),
        agree(semantics::div(k, kept), semantics::div(p, plain), plain.ret()),
{
}

/// One, two or three pops take mirrored states to mirrored states, with
/// the same values.
proof fn keep_same_pops(k: MachineState, p: MachineState, kept: InstructionMode, plain: InstructionMode)
    requires
        keep_added(kept, plain),
        mirrors(k, p, plain.ret()),
    ensures
        agree(k.pop(kept), p.pop(plain), plain.ret()),
        agree(pop2(k, kept), pop2(p, plain), plain.ret()),
        agree(pop3(k, kept), pop3(p, plain), plain.ret()),
{
}

/// One, two or three pushes take mirrored states to mirrored states, with
/// the same result.
proof fn keep_same_pushes(
    k: MachineState,
    p: MachineState,
    x: u16,
    y: u16,
    z: u16,
    kept: InstructionMode,
    plain: InstructionMode,
)
    requires
        keep_added(kept, plain),
        mirrors(k, p, plain.ret()),
    ensures
        agree(k.push(x, kept), p.push(x, plain), plain.ret()),
        agree(push2(k, x, y, kept), push2(p, x, y, plain), plain.ret()),
        agree(push3(k, x, y, z, kept), push3(p, x, y, z, plain), plain.ret()),
{
}

/// The instructions that only move values take mirrored states to mirrored
/// states, with the same result.
proof fn keep_same_shuffle(
    k: MachineState,
    p: MachineState,
    op: Opcode,
    kept: InstructionMode,
    plain: InstructionMode,
)
    requires
        keep_added(kept, plain),
        mirrors(k, p, plain.ret()),
    ensures
        agree(
            semantics::shuffle(k, op, kept),
            semantics::shuffle(p, op, plain),
            plain.ret(),
        ),
{
    keep_same_pops(k, p, kept, plain);
    match op {
        Opcode::POP => {},
        Opcode::NIP => {
            if let (k2, Ok((a, b))) = pop2(k, kept) {
                keep_same_pushes(k2, pop2(p, plain).0, a, a, a, kept, plain);
            }
        },
        Opcode::SWP => {
            if let (k2, Ok((a, b))) = pop2(k, kept) {
                keep_same_pushes(k2, pop2(p, plain).0, a, b, a, kept, plain);
            }
        },
        Opcode::ROT => {
            if let (k3, Ok((a, b, c))) = pop3(k, kept) {
                keep_same_pushes(k3, pop3(p, plain).0, b, a, c, kept, plain);
            }
        },
        Opcode::DUP => {
            if let (k1, Ok(a)) = k.pop(kept) {
                keep_same_pushes(k1, p.pop(plain).0, a, a, a, kept, plain);
            }
        },
        _ => {
            if let (k2, Ok((a, b))) = pop2(k, kept) {
                keep_same_pushes(k2, pop2(p, plain).0, b, a, b, kept, plain);
            }
        },
    }
}

/// The comparisons and the arithmetic take mirrored states to mirrored
/// states, with the same result.
proof fn keep_same_binary(
    k: MachineState,
    p: MachineState,
    op: Opcode,
    kept: InstructionMode,
    plain: InstructionMode,
)
    requires
        keep_added(kept, plain),
        mirrors(k, p, plain.ret()),
    ensures
        agree(
            semantics::compare(k, op, kept),
            semantics::compare(p, op, plain),
            plain.ret(),
        ),
        agree(
            semantics::arithmetic(k, op, kept),
            semantics::arithmetic(p, op, plain),
            plain.ret(),
        ),
{
}

/// The loads and the stores take mirrored states to mirrored states, with
/// the same result.
proof fn keep_same_memory(
    k: MachineState,
    p: MachineState,
    op: Opcode,
    kept: InstructionMode,
    plain: InstructionMode,
)
    requires
        keep_added(kept, plain),
        mirrors(k, p, plain.ret()),
    ensures
        agree(semantics::load(k, op, kept), semantics::load(p, op, plain), plain.ret()),
        agree(
            semantics::store(k, op, kept),
            semantics::store(p, op, plain),
            plain.ret(),
        ),
{
}

/// `DEI` and `DEO` take mirrored states to mirrored states, with the same
/// result, unless they address the pointer of their own stack.
proof fn keep_same_devices(
    k: MachineState,
    p: MachineState,
    op: Opcode,
    kept: InstructionMode,
    plain: InstructionMode,
    reply: DeviceReply,
)
    requires
        keep_added(kept, plain),
        mirrors(k, p, plain.ret()),
        !addresses_own_pointer(p, op, plain),
    ensures
        op == Opcode::DEI ==> agree(
            semantics::dei(k, kept, reply),
            semantics::dei(p, plain, reply),
            plain.ret(),
        ),
        op == Opcode::DEO ==> agree(
            semantics::deo(k, kept, reply),
            semantics::deo(p, plain, reply),
            plain.ret(),
        ),
{
}

/// Under the Keep flag an instruction computes what it computes without:
/// it succeeds or fails alike, and what it writes to memory, to the stacks
/// and to the program counter is the same, written through the shadow
/// pointer.  The exception is a `DEI` or a `DEO` on the pointer port of its
/// own stack, which sees the depth that the flag keeps.
pub proof fn keep_computes_the_same(
    s: MachineState,
    op: Opcode,
    kept: InstructionMode,
    plain: InstructionMode,
    reply: DeviceReply,
)
    requires
        keep_added(kept, plain),
        !addresses_own_pointer(s, op, plain),
    ensures
        execute(s, op, kept, reply).1 == execute(s, op, plain, reply).1,
        mirrors(execute(s, op, kept, reply).0, execute(s, op, plain, reply).0, plain.ret()),
{
    let k = prepare(s, kept);
    let p = prepare(s, plain);
    assert(mirrors(k, p, plain.ret()));
    keep_same_moves(k, p, kept, plain);
    keep_same_shuffle(k, p, op, kept, plain);
    keep_same_binary(k, p, op, kept, plain);
    keep_same_memory(k, p, op, kept, plain);
    if op == Opcode::DEI || op == Opcode::DEO {
        keep_same_devices(k, p, op, kept, plain, reply);
    }
}

/// By how many bytes an instruction that succeeds moves the pointer of its
/// stack: up for each value it pushes there, down for each it pops.
pub open spec fn depth_change(op: Opcode, short: bool) -> int {
    let w = width(short);
    match op {
        Opcode::LIT | Opcode::DUP | Opcode::OVR => w,
        Opcode::INC | Opcode::SWP | Opcode::ROT => 0,
        Opcode::POP | Opcode::NIP | Opcode::JMP | Opcode::JSR | Opcode::STH => -w,
        Opcode::ADD | Opcode::SUB | Opcode::MUL | Opcode::DIV | Opcode::AND | Opcode::ORA
        | Opcode::EOR => -w,
        Opcode::EQU | Opcode::NEQ | Opcode::GTH | Opcode::LTH => 1 - 2 * w,
        Opcode::JCN | Opcode::STZ | Opcode::STR | Opcode::DEO => -1 - w,
        Opcode::LDZ | Opcode::LDR | Opcode::DEI => w - 1,
        Opcode::LDA => w - 2,
        Opcode::STA => -2 - w,
        Opcode::SFT => -1,
    }
}

/// The operations all of whose operands and results have the width that the
/// Short flag selects.  The others pop or push a value of fixed width: a
/// flag, a condition, a control byte, an address or a port.
pub open spec fn width_follows_mode(op: Opcode) -> bool {
    match op {
        Opcode::LIT | Opcode::INC | Opcode::POP | Opcode::NIP | Opcode::SWP | Opcode::ROT
        | Opcode::DUP | Opcode::OVR | Opcode::JMP | Opcode::JSR | Opcode::STH | Opcode::ADD
        | Opcode::SUB | Opcode::MUL | Opcode::DIV | Opcode::AND | Opcode::ORA | Opcode::EOR => true,
        _ => false,
    }
}

/// The pointer that `mode` works through stands, in `t`, `change` bytes
/// above the depth that the stack has in `s`.
pub open spec fn moved_by(s: MachineState, t: MachineState, mode: InstructionMode, change: int) -> bool {
    t.stack(mode.ret()).cursor(mode.keep()) - s.stack(mode.ret()).ptr == change
}

/// The state is as an instruction under `mode` finds it.
pub open spec fn prepared(s: MachineState, mode: InstructionMode) -> bool {
    mode.keep() ==> s.wst.kptr == s.wst.ptr && s.rst.kptr == s.rst.ptr
}

/// The change of depth of `LIT`, `INC`, the jumps, `STH`, `SFT` and `DIV`.
proof fn depth_of_moves(s: MachineState, mode: InstructionMode)
    requires
        prepared(s, mode),
    ensures
        semantics::lit(s, mode).1 is Ok ==> moved_by(
            s,
            semantics::lit(s, mode).0,
            mode,
            depth_change(Opcode::LIT, mode.short()),
        ),
        semantics::inc(s, mode).1 is Ok ==> moved_by(
            s,
            semantics::inc(s, mode).0,
            mode,
            depth_change(Opcode::INC, mode.short()),
        ),
        semantics::jmp(s, mode).1 is Ok ==> moved_by(
            s,
            semantics::jmp(s, mode).0,
            mode,
            depth_change(Opcode::JMP, mode.short()),
        ),
        semantics::jcn(s, mode).1 is Ok ==> moved_by(
            s,
            semantics::jcn(s, mode).0,
            mode,
            depth_change(Opcode::JCN, mode.short()),
        ),
        semantics::jsr(s, mode).1 is Ok ==> moved_by(
            s,
            semantics::jsr(s, mode).0,
            mode,
            depth_change(Opcode::JSR, mode.short()),
        ),
        semantics::sth(s, mode).1 is Ok ==> moved_by(
            s,
            semantics::sth(s, mode).0,
            mode,
            depth_change(Opcode::STH, mode.short()),
        ),
        semantics::sft(s, mode).1 is Ok ==> moved_by(
            s,
            semantics::sft(s, mode).0,
            mode,
            depth_change(Opcode::SFT, mode.short()),
        ),
        semantics::div(s, mode).1 is Ok ==> moved_by(
            s,
            semantics::div(s, mode).0,
            mode,
            depth_change(Opcode::DIV, mode.short()),
        ),
{
}

/// The pointer that `mode` works through stands, in `t`, `change` bytes
/// above where it stands in `s`.
pub open spec fn shifted(s: MachineState, t: MachineState, mode: InstructionMode, change: int) -> bool {
    t.stack(mode.ret()).cursor(mode.keep()) - s.stack(mode.ret()).cursor(mode.keep()) == change
}

/// Each pop that succeeds moves the pointer down by one operand.
proof fn shift_of_pops(s: MachineState, mode: InstructionMode)
    ensures
        s.pop(mode).1 is Ok ==> shifted(s, s.pop(mode).0, mode, -width(mode.short())),
        pop2(s, mode).1 is Ok ==> shifted(s, pop2(s, mode).0, mode, -2 * width(mode.short())),
        pop3(s, mode).1 is Ok ==> shifted(s, pop3(s, mode).0, mode, -3 * width(mode.short())),
{
}

/// Each push that succeeds moves the pointer up by one operand.
proof fn shift_of_pushes(s: MachineState, x: u16, y: u16, z: u16, mode: InstructionMode)
    ensures
        s.push(x, mode).1 is Ok ==> shifted(s, s.push(x, mode).0, mode, width(mode.short())),
        push2(s, x, y, mode).1 is Ok ==> shifted(
            s,
            push2(s, x, y, mode).0,
            mode,
            2 * width(mode.short()),
        ),
        push3(s, x, y, z, mode).1 is Ok ==> shifted(
            s,
            push3(s, x, y, z, mode).0,
            mode,
            3 * width(mode.short()),
        ),
{
}

/// The change of depth of the instructions that only move values.
proof fn depth_of_shuffle(s: MachineState, op: Opcode, mode: InstructionMode)
    requires
        prepared(s, mode),
        op == Opcode::POP || op == Opcode::NIP || op == Opcode::SWP || op == Opcode::ROT || op
            == Opcode::DUP || op == Opcode::OVR,
        semantics::shuffle(s, op, mode).1 is Ok,
    ensures
        moved_by(s, semantics::shuffle(s, op, mode).0, mode, depth_change(op, mode.short())),
{
    shift_of_pops(s, mode);
    match op {
        Opcode::POP => {},
        Opcode::NIP => {
            if let (s2, Ok((a, b))) = pop2(s, mode) {
                shift_of_pushes(s2, a, a, a, mode);
            }
        },
        Opcode::SWP => {
            if let (s2, Ok((a, b))) = pop2(s, mode) {
                shift_of_pushes(s2, a, b, a, mode);
            }
        },
        Opcode::ROT => {
            if let (s3, Ok((a, b, c))) = pop3(s, mode) {
                shift_of_pushes(s3, b, a, c, mode);
            }
        },
        Opcode::DUP => {
            if let (s1, Ok(a)) = s.pop(mode) {
                shift_of_pushes(s1, a, a, a, mode);
            }
        },
        _ => {
            if let (s2, Ok((a, b))) = pop2(s, mode) {
                shift_of_pushes(s2, b, a, b, mode);
            }
        },
    }
}

/// The change of depth of the comparisons and of the arithmetic.
proof fn depth_of_binary(s: MachineState, op: Opcode, mode: InstructionMode)
    requires
        prepared(s, mode),
    ensures
        (op == Opcode::EQU || op == Opcode::NEQ || op == Opcode::GTH || op == Opcode::LTH)
            && semantics::compare(s, op, mode).1 is Ok ==> moved_by(
            s,
            semantics::compare(s, op, mode).0,
            mode,
            depth_change(op, mode.short()),
        ),
        (op == Opcode::ADD || op == Opcode::SUB || op == Opcode::MUL || op == Opcode::AND || op
            == Opcode::ORA || op == Opcode::EOR) && semantics::arithmetic(s, op, mode).1 is Ok
            ==> moved_by(
            s,
            semantics::arithmetic(s, op, mode).0,
            mode,
            depth_change(op, mode.short()),
        ),
{
}

/// The change of depth of the loads and of the stores.
proof fn depth_of_memory(s: MachineState, op: Opcode, mode: InstructionMode)
    requires
        prepared(s, mode),
    ensures
        (op == Opcode::LDZ || op == Opcode::LDR || op == Opcode::LDA) && semantics::load(
            s,
            op,
            mode,
        ).1 is Ok ==> moved_by(
            s,
            semantics::load(s, op, mode).0,
            mode,
            depth_change(op, mode.short()),
        ),
        (op == Opcode::STZ || op == Opcode::STR || op == Opcode::STA) && semantics::store(
            s,
            op,
            mode,
        ).1 is Ok ==> moved_by(
            s,
            semantics::store(s, op, mode).0,
            mode,
            depth_change(op, mode.short()),
        ),
{
}

/// The change of depth of `DEI`, and of a `DEO` that does not write the
/// depth.
proof fn depth_of_devices(s: MachineState, op: Opcode, mode: InstructionMode, reply: DeviceReply)
    requires
        prepared(s, mode),
        !(op == Opcode::DEO && addresses_own_pointer(s, op, mode)),
    ensures
        semantics::dei(s, mode, reply).1 is Ok ==> moved_by(
            s,
            semantics::dei(s, mode, reply).0,
            mode,
            depth_change(Opcode::DEI, mode.short()),
        ),
        op == Opcode::DEO && semantics::deo(s, mode, reply).1 is Ok ==> moved_by(
            s,
            semantics::deo(s, mode, reply).0,
            mode,
            depth_change(Opcode::DEO, mode.short()),
        ),
{
}

/// An instruction that succeeds moves the pointer it works through by
/// exactly `depth_change`, counted from the depth that it found: the live
/// pointer, or under the Keep flag the shadow pointer.  The one exception is
/// a `DEO` that writes the depth of its own stack through the system device.
pub proof fn depth_change_is_exact(
    s: MachineState,
    op: Opcode,
    mode: InstructionMode,
    reply: DeviceReply,
)
    requires
        execute(s, op, mode, reply).1 is Ok,
        !(op == Opcode::DEO && addresses_own_pointer(s, op, mode)),
    ensures
        moved_by(s, execute(s, op, mode, reply).0, mode, depth_change(op, mode.short())),
{
    let s0 = prepare(s, mode);
    let change = depth_change(op, mode.short());
    assert(prepared(s0, mode));
    assert(s0.stack(mode.ret()).ptr == s.stack(mode.ret()).ptr);
    assert(moved_by(s0, dispatch(s0, op, mode, reply).0, mode, change)) by {
        match op {
            Opcode::POP | Opcode::NIP | Opcode::SWP | Opcode::ROT | Opcode::DUP | Opcode::OVR => {
                depth_of_shuffle(s0, op, mode);
            },
            Opcode::DEI | Opcode::DEO => {
                assert(addresses_own_pointer(s0, op, mode) == addresses_own_pointer(s, op, mode));
                depth_of_devices(s0, op, mode, reply);
            },
            Opcode::EQU | Opcode::NEQ | Opcode::GTH | Opcode::LTH | Opcode::ADD | Opcode::SUB
            | Opcode::MUL | Opcode::AND | Opcode::ORA | Opcode::EOR => {
                depth_of_binary(s0, op, mode);
            },
            Opcode::LDZ | Opcode::LDR | Opcode::LDA | Opcode::STZ | Opcode::STR | Opcode::STA => {
                depth_of_memory(s0, op, mode);
            },
            _ => {
                depth_of_moves(s0, mode);
            },
        }
    }
}

/// The operations whose change of depth doubles with the Short flag are
/// exactly those all of whose operands and results have the width that the
/// flag selects.
pub proof fn depth_change_doubles(op: Opcode)
    ensures
        width_follows_mode(op) <==> depth_change(op, true) == 2 * depth_change(op, false),
{
}

/// For an operation all of whose operands and results have the width that
/// the Short flag selects, the depth changes with the flag by twice what it
/// changes without, from whatever state either instruction starts.
pub proof fn short_mode_scales_depth(
    s_byte: MachineState,
    s_short: MachineState,
    op: Opcode,
    byte_mode: InstructionMode,
    short_mode: InstructionMode,
    reply_byte: DeviceReply,
    reply_short: DeviceReply,
)
    requires
        width_follows_mode(op),
        !byte_mode.short(),
        short_mode.short(),
        byte_mode.keep() == short_mode.keep(),
        execute(s_byte, op, byte_mode, reply_byte).1 is Ok,
        execute(s_short, op, short_mode, reply_short).1 is Ok,
    ensures
        execute(s_short, op, short_mode, reply_short).0.stack(short_mode.ret()).cursor(
            short_mode.keep(),
        ) - s_short.stack(short_mode.ret()).ptr == 2 * (execute(
            s_byte,
            op,
            byte_mode,
            reply_byte,
        ).0.stack(byte_mode.ret()).cursor(byte_mode.keep()) - s_byte.stack(byte_mode.ret()).ptr),
{
    depth_change_is_exact(s_byte, op, byte_mode, reply_byte);
    depth_change_is_exact(s_short, op, short_mode, reply_short);
}

/// The bytes on a stack, from the bottom to the live pointer.
pub open spec fn contents(stack: StackState) -> Seq<u8> {
    stack.data.subrange(0, stack.ptr as int)
}

/// What `DUP` makes of a stack on which it succeeds.
pub open spec fn duplicated(stack: StackState, keep: bool, short: bool) -> StackState {
    let a = stack.pop(keep, short).1->Ok_0;
    stack.pop(keep, short).0.push(keep, short, a).0.push(keep, short, a).0
}

/// `DUP` writes above the bytes of the stack only, and leaves the pointer
/// one operand above where it was.
proof fn stack_duplicated(stack: StackState, keep: bool, short: bool)
    requires
        stack.wf(),
        stack.pop(keep, short).1 is Ok,
        stack.pop(keep, short).0.push(keep, short, stack.pop(keep, short).1->Ok_0).1 is Ok,
        stack.pop(keep, short).0.push(keep, short, stack.pop(keep, short).1->Ok_0).0.push(
            keep,
            short,
            stack.pop(keep, short).1->Ok_0,
        ).1 is Ok,
    ensures
        duplicated(stack, keep, short).wf(),
        duplicated(stack, keep, short).cursor(keep) == stack.cursor(keep) + width(short),
        duplicated(stack, keep, short).cursor(!keep) == stack.cursor(!keep),
        duplicated(stack, keep, short).data.subrange(0, stack.cursor(keep) as int)
            == stack.data.subrange(0, stack.cursor(keep) as int),
{
    let c = stack.cursor(keep) as int;
    let d = duplicated(stack, keep, short);
    if short {
        let hi = stack.data[c - 2];
        let lo = stack.data[c - 1];
        assert(crate::state::high(crate::state::join(hi, lo)) == hi);
        assert(crate::state::low(crate::state::join(hi, lo)) == lo);
        assert(d.data.subrange(0, c) =~= stack.data.subrange(0, c));
    } else {
        let b = stack.data[c - 1];
        assert(low(b as u16) == b);
        assert(d.data.subrange(0, c) =~= stack.data.subrange(0, c));
    }
}

/// `DUP` followed by `POP` leaves the stack as it was: the same depth, the
/// same bytes and so the same value on top.  The other stack, memory and the
/// program counter stay as well.
pub proof fn dup_then_pop(s: MachineState, mode: InstructionMode, reply: DeviceReply)
    requires
        s.wf(),
        execute(s, Opcode::DUP, mode, reply).1 is Ok,
        execute(execute(s, Opcode::DUP, mode, reply).0, Opcode::POP, mode, reply).1 is Ok,
    ensures
        ({
            let t = execute(execute(s, Opcode::DUP, mode, reply).0, Opcode::POP, mode, reply).0;
            &&& t.wf()
            &&& t.stack(mode.ret()).ptr == s.stack(mode.ret()).ptr
            &&& contents(t.stack(mode.ret())) == contents(s.stack(mode.ret()))
            &&& t.stack(mode.ret()).top(false, mode.short()) == s.stack(mode.ret()).top(
                false,
                mode.short(),
            )
            &&& contents(t.stack(!mode.ret())) == contents(s.stack(!mode.ret()))
            &&& t.ram == s.ram
            &&& t.pc == s.pc
            &&& t.halted == s.halted
        }),
{
    let ret = mode.ret();
    let keep = mode.keep();
    let short = mode.short();
    let s0 = prepare(s, mode);
    let st = s0.stack(ret);
    let c = st.cursor(keep) as int;
    assert(c == s.stack(ret).ptr);
    let s1 = execute(s, Opcode::DUP, mode, reply).0;
    assert(s1 == s0.with_stack(ret, duplicated(st, keep, short)) && st.pop(keep, short).1 is Ok
        && st.pop(keep, short).0.push(keep, short, st.pop(keep, short).1->Ok_0).1 is Ok
        && st.pop(keep, short).0.push(keep, short, st.pop(keep, short).1->Ok_0).0.push(
        keep,
        short,
        st.pop(keep, short).1->Ok_0,
    ).1 is Ok) by {
        let p = s0.pop(mode);
        assert(semantics::shuffle(s0, Opcode::DUP, mode).1 is Ok);
        assert(p.1 is Ok);
        let a = p.1->Ok_0;
        let q = push2(p.0, a, a, mode);
        assert(q.1 is Ok);
        assert(p.0.push(a, mode).1 is Ok);
        assert(p.0.stack(ret) == st.pop(keep, short).0);
        assert(p.0.push(a, mode).0.stack(ret) == st.pop(keep, short).0.push(keep, short, a).0);
        assert(q.0.stack(ret) == duplicated(st, keep, short));
        assert(q.0 == s0.with_stack(ret, duplicated(st, keep, short)));
    }
    stack_duplicated(st, keep, short);
    let d = duplicated(st, keep, short);
    let s2 = prepare(s1, mode);
    let t = execute(s1, Opcode::POP, mode, reply).0;
    let dt = s2.stack(ret);
    assert(t == s2.with_stack(ret, dt.pop(keep, short).0));
    let n = s.stack(ret).ptr as int;
    assert(t.stack(ret).ptr == n);
    assert(t.stack(ret).data == d.data);
    assert(contents(t.stack(ret)) =~= contents(s.stack(ret))) by {
        assert(d.data.subrange(0, n) == st.data.subrange(0, n));
        assert(st.data == s.stack(ret).data);
    }
    assert(t.stack(ret).top(false, short) == s.stack(ret).top(false, short)) by {
        assert(d.data.subrange(0, n) == st.data.subrange(0, n));
        if n >= 1 {
            assert(d.data.subrange(0, n)[n - 1] == d.data[n - 1]);
            assert(st.data.subrange(0, n)[n - 1] == st.data[n - 1]);
        }
        if n >= 2 {
            assert(d.data.subrange(0, n)[n - 2] == d.data[n - 2]);
            assert(st.data.subrange(0, n)[n - 2] == st.data[n - 2]);
        }
    }
    assert(contents(t.stack(!ret)) =~= contents(s.stack(!ret)));
}

/// `DUP` succeeds exactly on a stack that holds an operand and has room
/// for another; `POP` exactly on one that holds an operand.
pub proof fn dup_and_pop_succeed(s: MachineState, mode: InstructionMode, reply: DeviceReply)
    ensures
        execute(s, Opcode::DUP, mode, reply).1 is Ok <==> width(mode.short()) <= s.stack(
            mode.ret(),
        ).ptr < 256 - width(mode.short()),
        execute(s, Opcode::POP, mode, reply).1 is Ok <==> width(mode.short()) <= s.stack(
            mode.ret(),
        ).ptr,
{
    let s0 = prepare(s, mode);
    let p = s0.pop(mode);
    if p.1 is Ok {
        let a = p.1->Ok_0;
        let q = p.0.push(a, mode);
        if q.1 is Ok {
            let r = q.0.push(a, mode);
        }
    }
}

/// `DUP` then `POP`, done twice over, leaves the stack as it was: the same
/// depth and the same value on top.
pub proof fn dup_then_pop_twice(s: MachineState, mode: InstructionMode, reply: DeviceReply)
    requires
        s.wf(),
        execute(s, Opcode::DUP, mode, reply).1 is Ok,
        execute(execute(s, Opcode::DUP, mode, reply).0, Opcode::POP, mode, reply).1 is Ok,
    ensures
        ({
            let once = execute(execute(s, Opcode::DUP, mode, reply).0, Opcode::POP, mode, reply).0;
            let again = execute(once, Opcode::DUP, mode, reply);
            let twice = execute(again.0, Opcode::POP, mode, reply);
            &&& again.1 is Ok
            &&& twice.1 is Ok
            &&& twice.0.stack(mode.ret()).ptr == s.stack(mode.ret()).ptr
            &&& contents(twice.0.stack(mode.ret())) == contents(s.stack(mode.ret()))
            &&& twice.0.stack(mode.ret()).top(false, mode.short()) == s.stack(mode.ret()).top(
                false,
                mode.short(),
            )
        }),
{
    let first = execute(s, Opcode::DUP, mode, reply).0;
    let once = execute(first, Opcode::POP, mode, reply).0;
    let again = execute(once, Opcode::DUP, mode, reply);
    dup_then_pop(s, mode, reply);
    dup_and_pop_succeed(s, mode, reply);
    dup_and_pop_succeed(once, mode, reply);
    depth_after_dup(s, mode, reply);
    depth_after_dup(once, mode, reply);
    dup_and_pop_succeed(first, mode, reply);
    dup_and_pop_succeed(again.0, mode, reply);
    dup_then_pop(once, mode, reply);
}

/// The depth that a `DUP` leaves: one operand more, or under the Keep flag
/// the depth that it found.
proof fn depth_after_dup(s: MachineState, mode: InstructionMode, reply: DeviceReply)
    requires
        execute(s, Opcode::DUP, mode, reply).1 is Ok,
    ensures
        execute(s, Opcode::DUP, mode, reply).0.stack(mode.ret()).ptr == s.stack(mode.ret()).ptr + (
        if mode.keep() {
            0
        } else {
            width(mode.short())
        }),
{
    if mode.keep() {
        keep_leaves_the_depth(s, Opcode::DUP, mode, reply);
    } else {
        depth_change_is_exact(s, Opcode::DUP, mode, reply);
    }
}

/// The instruction byte of `STH` with the Return flag: it moves the top of
/// the return stack to the working stack, as a two-byte value.
pub const STH_RETURN: u8 = 0x4f;

/// The instruction byte of `JMP` with the Short flag: it jumps to the
/// two-byte address on top of the working stack.
pub const JMP_SHORT: u8 = 0x2c;

/// What the two instruction bytes of a return encode.
pub proof fn return_sequence_decodes()
    ensures
        Opcode::of_instruction(STH_RETURN) == Opcode::STH,
        InstructionMode::from_bits_spec(STH_RETURN).ret(),
        !InstructionMode::from_bits_spec(STH_RETURN).short(),
        !InstructionMode::from_bits_spec(STH_RETURN).keep(),
        Opcode::of_instruction(JMP_SHORT) == Opcode::JMP,
        InstructionMode::from_bits_spec(JMP_SHORT).short(),
        !InstructionMode::from_bits_spec(JMP_SHORT).ret(),
        !InstructionMode::from_bits_spec(JMP_SHORT).keep(),
{
    InstructionMode::lemma_bits_round_trip(STH_RETURN);
    InstructionMode::lemma_bits_round_trip(JMP_SHORT);
}

/// A call by `JSR` from the working stack pushes the low byte of the return
/// address on the return stack and jumps by its operand.
pub proof fn call_pushes_the_return_address(
    s: MachineState,
    mode: InstructionMode,
    reply: DeviceReply,
)
    requires
        s.wf(),
        !mode.ret(),
        !mode.keep(),
        execute(s, Opcode::JSR, mode, reply).1 is Ok,
    ensures
        ({
            let target = s.pop(mode).1->Ok_0;
            let t = execute(s, Opcode::JSR, mode, reply).0;
            &&& s.pop(mode).1 is Ok
            &&& t.pc == s.jump(target, mode.short()).pc
            &&& mode.short() ==> t.pc == target
            &&& t.rst.ptr == s.rst.ptr + 1
            &&& t.rst.data == s.rst.data.update(s.rst.ptr as int, low(s.pc))
            &&& t.wst.ptr == s.wst.ptr - width(mode.short())
            &&& t.wst.data == s.wst.data
            &&& t.ram == s.ram
        }),
{
}

/// A call and the return from it.  `JSR`, called from the working stack
/// with the program counter at `s.pc` behind it, pushes the low byte of that
/// address on the return stack.  At the target, `STH` with the Return flag
/// moves the byte to the working stack as a two-byte address, and `JMP` with
/// the Short flag jumps to it.  The program counter is then the low byte of
/// the return address: the return address itself where the call stood in
/// the first 255 bytes of memory.  Both stacks have the depth that the call
/// left once it had popped its operand.
pub proof fn call_and_return(
    s: MachineState,
    mode: InstructionMode,
    sth: InstructionMode,
    jmp: InstructionMode,
    reply: DeviceReply,
)
    requires
        s.wf(),
        !mode.ret(),
        !mode.keep(),
        sth.ret() && !sth.short() && !sth.keep(),
        jmp.short() && !jmp.ret() && !jmp.keep(),
        execute(s, Opcode::JSR, mode, reply).1 is Ok,
        execute(s, Opcode::JSR, mode, reply).0.wst.ptr < 254,
    ensures
        ({
            let called = execute(s, Opcode::JSR, mode, reply).0;
            let moved = execute(called.advance(1), Opcode::STH, sth, reply);
            let back = execute(moved.0.advance(1), Opcode::JMP, jmp, reply);
            &&& moved.1 is Ok
            &&& back.1 is Ok
            &&& back.0.pc == s.pc % 256
            &&& s.pc < 256 ==> back.0.pc == s.pc
            &&& back.0.rst.ptr == s.rst.ptr
            &&& back.0.wst.ptr == called.wst.ptr
            &&& back.0.ram == s.ram
        }),
{
    call_pushes_the_return_address(s, mode, reply);
    let called = execute(s, Opcode::JSR, mode, reply).0;
    let c1 = called.advance(1);
    let popped = c1.pop(sth);
    assert(popped.1 == Ok::<u16, UxnError>(low(s.pc) as u16));
    let moved = execute(c1, Opcode::STH, sth, reply);
    assert(moved.1 is Ok);
    let m1 = moved.0.advance(1);
    let n = called.wst.ptr as int;
    assert(m1.wst.data[n] == crate::state::high(low(s.pc) as u16));
    assert(m1.wst.data[n + 1] == low(low(s.pc) as u16));
    assert(m1.wst.ptr == n + 2);
    let address = m1.pop(jmp);
    assert(address.1 == Ok::<u16, UxnError>(crate::state::join(m1.wst.data[n], m1.wst.data[n + 1])));
}

/// A `DEO` whose port address names a slot other than 0 asks the device in
/// that slot, with the port that the address names and the low byte of the
/// value, and no other: the system device is not written to, so that all the
/// instruction does to the machine is pop its two operands, and what it
/// returns is what the device answered.
pub proof fn device_write_is_routed(s: MachineState, mode: InstructionMode, reply: DeviceReply)
    requires
        prepare(s, mode).pop_byte(mode).1 is Ok,
        prepare(s, mode).pop_byte(mode).0.pop(mode).1 is Ok,
        slot_of(prepare(s, mode).pop_byte(mode).1->Ok_0) != 0,
    ensures
        ({
            let address = prepare(s, mode).pop_byte(mode).1->Ok_0;
            let popped = prepare(s, mode).pop_byte(mode).0.pop(mode);
            &&& 1 <= slot_of(address) < 16
            &&& port_of(address) < 16
            &&& instruction_request(s, Opcode::DEO, mode) == Some(
                DeviceRequest {
                    slot: slot_of(address),
                    port: port_of(address),
                    value: Some(low(popped.1->Ok_0)),
                },
            )
            &&& execute(s, Opcode::DEO, mode, reply) == (popped.0, acknowledge(reply))
        }),
{
}

/// A `DEI` whose port address names a slot other than 0 asks the device in
/// that slot to read the port that the address names, and pushes what it
/// answered.
pub proof fn device_read_is_routed(s: MachineState, mode: InstructionMode, reply: DeviceReply)
    requires
        prepare(s, mode).pop_byte(mode).1 is Ok,
        slot_of(prepare(s, mode).pop_byte(mode).1->Ok_0) != 0,
    ensures
        ({
            let address = prepare(s, mode).pop_byte(mode).1->Ok_0;
            let popped = prepare(s, mode).pop_byte(mode).0;
            &&& 1 <= slot_of(address) < 16
            &&& instruction_request(s, Opcode::DEI, mode) == Some(
                DeviceRequest { slot: slot_of(address), port: port_of(address), value: None },
            )
            &&& execute(s, Opcode::DEI, mode, reply) == semantics::deliver(
                popped,
                reply,
                mode,
            )
        }),
{
}

/// An instruction that asks no device of the host does not depend on the
/// reply, and neither does a cycle.
pub proof fn reply_matters_to_requests_only(
    s: MachineState,
    op: Opcode,
    mode: InstructionMode,
    one: DeviceReply,
    other: DeviceReply,
)
    ensures
        instruction_request(s, op, mode) is None ==> execute(s, op, mode, one) == execute(
            s,
            op,
            mode,
            other,
        ),
        request(s) is None ==> step(s, one) == step(s, other),
{
}

/// An evaluation that does not start, and one that meets the break byte at
/// once, write to no device.
pub proof fn nothing_is_written_before_the_break(
    s: MachineState,
    start: u16,
    replies: Seq<DeviceReply>,
    budget: nat,
    slot: int,
)
    requires
        start == 0 || s.halted || s.ram[start as int] == BREAK,
    ensures
        !eval_writes(s, start, replies, budget, slot),
{
}

/// Only the slots 1 to 15 are ever written to: slot 0 is the system device,
/// which the machine itself is.
pub proof fn only_host_slots_are_written(
    s: MachineState,
    replies: Seq<DeviceReply>,
    cycle: nat,
    budget: nat,
    slot: int,
)
    requires
        run_writes(s, replies, cycle, budget, slot),
    ensures
        1 <= slot < 16,
    decreases budget,
{
    if budget > 0 && !semantics::writes_to(s, slot) {
        match step(s, reply_at(replies, cycle)) {
            (s1, Ok(Cycle::Continue)) => {
                only_host_slots_are_written(s1, replies, cycle + 1, (budget - 1) as nat, slot);
            },
            _ => {},
        }
    }
}

/// A run of one write to a device and then the break byte writes to the
/// slot that the port address of the write names, and to no other.
pub proof fn a_write_reaches_its_slot_alone(
    s: MachineState,
    replies: Seq<DeviceReply>,
    cycle: nat,
    budget: nat,
    slot: int,
)
    requires
        budget >= 2,
        request(s) matches Some(q) && q.value is Some,
        step(s, reply_at(replies, cycle)).1 == Ok::<Cycle, UxnError>(Cycle::Continue),
        step(s, reply_at(replies, cycle)).0.ram[step(s, reply_at(replies, cycle)).0.pc as int]
            == BREAK,
    ensures
        run_writes(s, replies, cycle, budget, slot) <==> slot == request(s)->Some_0.slot,
{
    let s1 = step(s, reply_at(replies, cycle)).0;
    assert(request(s1) is None);
    assert(!run_writes(s1, replies, cycle + 1, (budget - 1) as nat, slot));
}

} // verus!
