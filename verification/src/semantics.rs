//! What each instruction does, and what a run of instructions does.
//!
//! Operands are named in the order they are popped: `a` is the first pop, the
//! value on top of the stack; `b` the second; `c` the third.  An instruction
//! does its pops and pushes one after the other and stops at the first that
//! fails; what was done before stays done.
//!
//! A `DEI` or `DEO` that addresses one of the slots 1 to 15 asks a device of
//! the host.  What the device answers is not for the machine to say: the
//! functions here take the answer as an argument, the [`DeviceReply`].  An
//! instruction that asks no device does not look at it.
use vstd::prelude::*;
use crate::device::{port_of, slot_of};
use crate::error::UxnError;
use crate::mode::InstructionMode;
use crate::opcode::{Opcode, BREAK};
use crate::state::{low, wrap_address, MachineState, StackState};

verus! {

/// What a device of the host answers.  For a read, the byte or the error; for
/// a write, any byte for success, or the error.
pub type DeviceReply = Result<u8, UxnError>;

/// What an empty slot answers, and what stands for the answer where no device
/// is asked.
pub open spec fn refusal() -> DeviceReply {
    Err(UxnError::DeviceError)
}

/// How a cycle that did not fail ended.
#[derive(Clone, Copy, Debug, PartialEq, Eq, Structural)]
pub enum Cycle {
    /// An instruction ran; the next one is at the program counter.
    Continue,
    /// The break instruction was met.
    Break,
}

/// The state an operation leaves, and its result.
pub type Outcome<T> = (MachineState, Result<T, UxnError>);

/// `x` reduced to sixteen bits.
pub open spec fn wrap16(x: int) -> u16 {
    (x % 65536) as u16
}

/// One or zero, for true or false.
pub open spec fn flag(b: bool) -> u16 {
    if b {
        1
    } else {
        0
    }
}

/// Pops `a`, then `b`.
pub open spec fn pop2(s: MachineState, mode: InstructionMode) -> Outcome<(u16, u16)> {
    match s.pop(mode) {
        (s1, Ok(a)) => match s1.pop(mode) {
            (s2, Ok(b)) => (s2, Ok((a, b))),
            (s2, Err(e)) => (s2, Err(e)),
        },
        (s1, Err(e)) => (s1, Err(e)),
    }
}

/// Pops `a`, then `b`, then `c`.
pub open spec fn pop3(s: MachineState, mode: InstructionMode) -> Outcome<(u16, u16, u16)> {
    match pop2(s, mode) {
        (s2, Ok((a, b))) => match s2.pop(mode) {
            (s3, Ok(c)) => (s3, Ok((a, b, c))),
            (s3, Err(e)) => (s3, Err(e)),
        },
        (s2, Err(e)) => (s2, Err(e)),
    }
}

/// Pushes `x`, then `y`.
pub open spec fn push2(s: MachineState, x: u16, y: u16, mode: InstructionMode) -> Outcome<()> {
    match s.push(x, mode) {
        (s1, Ok(_)) => s1.push(y, mode),
        (s1, Err(e)) => (s1, Err(e)),
    }
}

/// Pushes `x`, then `y`, then `z`.
pub open spec fn push3(s: MachineState, x: u16, y: u16, z: u16, mode: InstructionMode) -> Outcome<
    (),
> {
    match push2(s, x, y, mode) {
        (s2, Ok(_)) => s2.push(z, mode),
        (s2, Err(e)) => (s2, Err(e)),
    }
}

/// `LIT`: pushes the one or two bytes that follow the instruction in memory,
/// then moves the program counter past them.
pub open spec fn lit(s: MachineState, mode: InstructionMode) -> Outcome<()> {
    match s.push(s.read(s.pc as int, mode.short()), mode) {
        (s1, Ok(_)) => (
            s1.advance(
                if mode.short() {
                    2
                } else {
                    1
                },
            ),
            Ok(()),
        ),
        (s1, Err(e)) => (s1, Err(e)),
    }
}

/// `INC`: pops `a`, pushes `a + 1`.
pub open spec fn inc(s: MachineState, mode: InstructionMode) -> Outcome<()> {
    match s.pop(mode) {
        (s1, Ok(a)) => s1.push(wrap16(a + 1), mode),
        (s1, Err(e)) => (s1, Err(e)),
    }
}

/// The instructions that only move values: `POP`, `NIP`, `SWP`, `ROT`, `DUP`
/// and `OVR`.
pub open spec fn shuffle(s: MachineState, op: Opcode, mode: InstructionMode) -> Outcome<()> {
    match op {
        Opcode::POP => match s.pop(mode) {
            (s1, Ok(_)) => (s1, Ok(())),
            (s1, Err(e)) => (s1, Err(e)),
        },
        Opcode::NIP => match pop2(s, mode) {
            (s2, Ok((a, _))) => s2.push(a, mode),
            (s2, Err(e)) => (s2, Err(e)),
        },
        Opcode::SWP => match pop2(s, mode) {
            (s2, Ok((a, b))) => push2(s2, a, b, mode),
            (s2, Err(e)) => (s2, Err(e)),
        },
        Opcode::ROT => match pop3(s, mode) {
            (s3, Ok((a, b, c))) => push3(s3, b, a, c, mode),
            (s3, Err(e)) => (s3, Err(e)),
        },
        Opcode::DUP => match s.pop(mode) {
            (s1, Ok(a)) => push2(s1, a, a, mode),
            (s1, Err(e)) => (s1, Err(e)),
        },
        _ => match pop2(s, mode) {
            (s2, Ok((a, b))) => push3(s2, b, a, b, mode),
            (s2, Err(e)) => (s2, Err(e)),
        },
    }
}

/// What a comparison finds of `b`, the second pop, against `a`, the first:
/// `EQU` whether `b == a`, `NEQ` whether `b != a`, `GTH` whether `b > a`,
/// `LTH` whether `b < a`.
pub open spec fn holds(op: Opcode, a: u16, b: u16) -> bool {
    match op {
        Opcode::EQU => b == a,
        Opcode::NEQ => b != a,
        Opcode::GTH => b > a,
        _ => b < a,
    }
}

/// The comparisons `EQU`, `NEQ`, `GTH` and `LTH`: pop `a` and `b`, push one
/// byte, 1 if the comparison holds and 0 if not.
pub open spec fn compare(s: MachineState, op: Opcode, mode: InstructionMode) -> Outcome<()> {
    match pop2(s, mode) {
        (s2, Ok((a, b))) => s2.push_byte(flag(holds(op, a, b)), mode),
        (s2, Err(e)) => (s2, Err(e)),
    }
}

/// `JMP`: pops `a` and jumps by it.
pub open spec fn jmp(s: MachineState, mode: InstructionMode) -> Outcome<()> {
    match s.pop(mode) {
        (s1, Ok(a)) => (s1.jump(a, mode.short()), Ok(())),
        (s1, Err(e)) => (s1, Err(e)),
    }
}

/// `JCN`: pops `a`, then a condition of one byte, and jumps by `a` if the
/// condition is not zero.
pub open spec fn jcn(s: MachineState, mode: InstructionMode) -> Outcome<()> {
    match s.pop(mode) {
        (s1, Ok(a)) => match s1.pop_byte(mode) {
            (s2, Ok(c)) => (
                if c != 0 {
                    s2.jump(a, mode.short())
                } else {
                    s2
                },
                Ok(()),
            ),
            (s2, Err(e)) => (s2, Err(e)),
        },
        (s1, Err(e)) => (s1, Err(e)),
    }
}

/// `JSR`: pops `a`, pushes the low byte of the program counter on the other
/// stack, and jumps by `a`.
pub open spec fn jsr(s: MachineState, mode: InstructionMode) -> Outcome<()> {
    match s.pop(mode) {
        (s1, Ok(a)) => match s1.push_opposite(s1.pc, mode, false) {
            (s2, Ok(_)) => (s2.jump(a, mode.short()), Ok(())),
            (s2, Err(e)) => (s2, Err(e)),
        },
        (s1, Err(e)) => (s1, Err(e)),
    }
}

/// `STH`: pops `a` and pushes it on the other stack, as two bytes whatever
/// its width.
pub open spec fn sth(s: MachineState, mode: InstructionMode) -> Outcome<()> {
    match s.pop(mode) {
        (s1, Ok(a)) => s1.push_opposite(a, mode, true),
        (s1, Err(e)) => (s1, Err(e)),
    }
}

/// Pops the address that a load or a store works on.  `LDZ` and `STZ` pop one
/// byte, an address in the first 256 bytes of memory.  `LDR` and `STR` pop
/// one byte, an unsigned offset from the program counter.  `LDA` and `STA`
/// pop two bytes, the address itself.
pub open spec fn pop_address(s: MachineState, op: Opcode, mode: InstructionMode) -> Outcome<int> {
    match op {
        Opcode::LDZ | Opcode::STZ => match s.pop_byte(mode) {
            (s1, Ok(a)) => (s1, Ok(a as int)),
            (s1, Err(e)) => (s1, Err(e)),
        },
        Opcode::LDR | Opcode::STR => match s.pop_byte(mode) {
            (s1, Ok(a)) => (s1, Ok(wrap_address(s1.pc as int, a as int))),
            (s1, Err(e)) => (s1, Err(e)),
        },
        _ => match s.pop_short(mode) {
            (s1, Ok(a)) => (s1, Ok(a as int)),
            (s1, Err(e)) => (s1, Err(e)),
        },
    }
}

/// The loads `LDZ`, `LDR` and `LDA`: pop an address, push the value that
/// memory holds there.
pub open spec fn load(s: MachineState, op: Opcode, mode: InstructionMode) -> Outcome<()> {
    match pop_address(s, op, mode) {
        (s1, Ok(addr)) => s1.push(s1.read(addr, mode.short()), mode),
        (s1, Err(e)) => (s1, Err(e)),
    }
}

/// The stores `STZ`, `STR` and `STA`: pop an address, pop a value, write the
/// value to memory there.
pub open spec fn store(s: MachineState, op: Opcode, mode: InstructionMode) -> Outcome<()> {
    match pop_address(s, op, mode) {
        (s1, Ok(addr)) => match s1.pop(mode) {
            (s2, Ok(v)) => (s2.write(addr, v, mode.short()), Ok(())),
            (s2, Err(e)) => (s2, Err(e)),
        },
        (s1, Err(e)) => (s1, Err(e)),
    }
}

/// What the system device answers to a read: port `0x02` gives the depth of
/// the working stack, port `0x03` that of the return stack, every other port
/// is refused.
pub open spec fn system_dei(s: MachineState, port: u8) -> Result<u8, UxnError> {
    if port == 0x02 {
        Ok(s.wst.ptr)
    } else if port == 0x03 {
        Ok(s.rst.ptr)
    } else {
        Err(UxnError::DeviceError)
    }
}

/// What the system device makes of a write: port `0x02` sets the depth of
/// the working stack, port `0x03` that of the return stack; port `0x0f` sets
/// the halt flag if the value is not zero and clears it if it is; the ports
/// `0x08` to `0x0e` accept the value and ignore it; every other port is
/// refused.
pub open spec fn system_deo(s: MachineState, port: u8, value: u8) -> Outcome<()> {
    if port == 0x02 {
        (MachineState { wst: StackState { ptr: value, ..s.wst }, ..s }, Ok(()))
    } else if port == 0x03 {
        (MachineState { rst: StackState { ptr: value, ..s.rst }, ..s }, Ok(()))
    } else if port == 0x0f {
        (MachineState { halted: value != 0, ..s }, Ok(()))
    } else if 0x08 <= port <= 0x0e {
        (s, Ok(()))
    } else {
        (s, Err(UxnError::DeviceError))
    }
}

/// What a `DEI` makes of the answer to its read: a byte is pushed, one byte
/// wide or with the Short flag two; an error is handed on.
pub open spec fn deliver(s: MachineState, answer: Result<u8, UxnError>, mode: InstructionMode) -> Outcome<
    (),
> {
    match answer {
        Ok(b) => s.push(b as u16, mode),
        Err(e) => (s, Err(e)),
    }
}

/// `DEI`: pops a port address of one byte, reads the port, pushes what was
/// read.  Slot 0 is answered by the system device, any other slot by `reply`.
pub open spec fn dei(s: MachineState, mode: InstructionMode, reply: DeviceReply) -> Outcome<()> {
    match s.pop_byte(mode) {
        (s1, Ok(a)) => deliver(
            s1,
            if slot_of(a) == 0 {
                system_dei(s1, port_of(a))
            } else {
                reply
            },
            mode,
        ),
        (s1, Err(e)) => (s1, Err(e)),
    }
}

/// What a `DEO` to a device of the host returns: success if the device took
/// the byte, else the device's error.
pub open spec fn acknowledge(reply: DeviceReply) -> Result<(), UxnError> {
    match reply {
        Ok(_) => Ok(()),
        Err(e) => Err(e),
    }
}

/// `DEO`: pops a port address of one byte, pops a value, writes the low byte
/// of the value to the port.  Slot 0 is the system device; for any other
/// slot `reply` says whether the device took the byte.
pub open spec fn deo(s: MachineState, mode: InstructionMode, reply: DeviceReply) -> Outcome<()> {
    match s.pop_byte(mode) {
        (s1, Ok(a)) => match s1.pop(mode) {
            (s2, Ok(v)) => if slot_of(a) == 0 {
                system_deo(s2, port_of(a), low(v))
            } else {
                (s2, acknowledge(reply))
            },
            (s2, Err(e)) => (s2, Err(e)),
        },
        (s1, Err(e)) => (s1, Err(e)),
    }
}

/// What an arithmetic or logic instruction makes of `b`, the second pop, and
/// `a`, the first: `ADD` the sum, `SUB` the difference `b - a`, `MUL` the
/// product, each reduced to sixteen bits; `AND`, `ORA` and `EOR` the bitwise
/// and, or and exclusive or.  A push of one byte then keeps the low eight
/// bits.
pub open spec fn combine(op: Opcode, a: u16, b: u16) -> u16 {
    match op {
        Opcode::ADD => wrap16(b + a),
        Opcode::SUB => wrap16(b - a),
        Opcode::MUL => wrap16(b * a),
        Opcode::AND => b & a,
        Opcode::ORA => b | a,
        _ => b ^ a,
    }
}

/// `ADD`, `SUB`, `MUL`, `AND`, `ORA` and `EOR`: pop `a` and `b`, push what
/// the operation makes of them.
pub open spec fn arithmetic(s: MachineState, op: Opcode, mode: InstructionMode) -> Outcome<()> {
    match pop2(s, mode) {
        (s2, Ok((a, b))) => s2.push(combine(op, a, b), mode),
        (s2, Err(e)) => (s2, Err(e)),
    }
}

/// `DIV`: with a zero on top of the stack it fails with `DivisionByZero` and
/// pops nothing; else it pops `a` and `b` and pushes the quotient `b / a`.
pub open spec fn div(s: MachineState, mode: InstructionMode) -> Outcome<()> {
    if s.top(mode) == Ok::<u16, UxnError>(0) {
        (s, Err(UxnError::DivisionByZero))
    } else {
        match pop2(s, mode) {
            (s2, Ok((a, b))) => s2.push(b / a, mode),
            (s2, Err(e)) => (s2, Err(e)),
        }
    }
}

/// `a` shifted as `control` says: left by the high nibble of `control`, then
/// right by its low nibble, both unsigned, in sixteen bits if `short` and in
/// eight if not.
pub open spec fn shift(a: u16, control: u16, short: bool) -> u16 {
    let left = (control / 16) % 16;
    let right = control % 16;
    if short {
        (a << left) >> right
    } else {
        ((a << left) & 0xff) >> right
    }
}

/// `SFT`: pops `a`, pops a control byte, pushes `a` shifted as the control
/// byte says.
pub open spec fn sft(s: MachineState, mode: InstructionMode) -> Outcome<()> {
    match s.pop(mode) {
        (s1, Ok(a)) => match s1.pop_byte(mode) {
            (s2, Ok(control)) => s2.push(shift(a, control, mode.short()), mode),
            (s2, Err(e)) => (s2, Err(e)),
        },
        (s1, Err(e)) => (s1, Err(e)),
    }
}

/// What the operation `op` does under `mode` to a state in which the shadow
/// pointers are already set.
pub open spec fn dispatch(
    s: MachineState,
    op: Opcode,
    mode: InstructionMode,
    reply: DeviceReply,
) -> Outcome<()> {
    match op {
        Opcode::LIT => lit(s, mode),
        Opcode::INC => inc(s, mode),
        Opcode::POP | Opcode::NIP | Opcode::SWP | Opcode::ROT | Opcode::DUP | Opcode::OVR => shuffle(
            s,
            op,
            mode,
        ),
        Opcode::EQU | Opcode::NEQ | Opcode::GTH | Opcode::LTH => compare(s, op, mode),
        Opcode::JMP => jmp(s, mode),
        Opcode::JCN => jcn(s, mode),
        Opcode::JSR => jsr(s, mode),
        Opcode::STH => sth(s, mode),
        Opcode::LDZ | Opcode::LDR | Opcode::LDA => load(s, op, mode),
        Opcode::STZ | Opcode::STR | Opcode::STA => store(s, op, mode),
        Opcode::DEI => dei(s, mode, reply),
        Opcode::DEO => deo(s, mode, reply),
        Opcode::ADD | Opcode::SUB | Opcode::MUL | Opcode::AND | Opcode::ORA | Opcode::EOR => arithmetic(
            s,
            op,
            mode,
        ),
        Opcode::DIV => div(s, mode),
        Opcode::SFT => sft(s, mode),
    }
}

/// The state as an instruction under `mode` finds it: with the Keep flag,
/// the shadow pointers of both stacks set to the live pointers.
pub open spec fn prepare(s: MachineState, mode: InstructionMode) -> MachineState {
    if mode.keep() {
        s.snapshot()
    } else {
        s
    }
}

/// What one instruction does, the program counter already behind its byte.
pub open spec fn execute(
    s: MachineState,
    op: Opcode,
    mode: InstructionMode,
    reply: DeviceReply,
) -> Outcome<()> {
    dispatch(prepare(s, mode), op, mode, reply)
}

/// One cycle: fetches the byte at the program counter and moves the counter
/// past it; stops at the break byte; else runs the instruction that the byte
/// encodes.
pub open spec fn step(s: MachineState, reply: DeviceReply) -> Outcome<Cycle> {
    let byte = s.ram[s.pc as int];
    let s1 = s.advance(1);
    if byte == BREAK {
        (s1, Ok(Cycle::Break))
    } else {
        match execute(
            s1,
            Opcode::of_instruction(byte),
            InstructionMode::from_bits_spec(byte),
            reply,
        ) {
            (s2, Ok(_)) => (s2, Ok(Cycle::Continue)),
            (s2, Err(e)) => (s2, Err(e)),
        }
    }
}

/// The reply for the cycle numbered `cycle`: the entry of `replies` at that
/// index, or a refusal where `replies` has none.
pub open spec fn reply_at(replies: Seq<DeviceReply>, cycle: nat) -> DeviceReply {
    if cycle < replies.len() {
        replies[cycle as int]
    } else {
        refusal()
    }
}

/// A run of at most `budget` cycles, numbered from `cycle` on: it ends well
/// at the break byte, with the error of the first instruction that fails, or
/// with `CycleLimit` when `budget` cycles have run and none of them ended it.
/// A cycle that asks a device of the host gets the entry of `replies` with
/// its own number.
pub open spec fn run(s: MachineState, replies: Seq<DeviceReply>, cycle: nat, budget: nat) -> Outcome<
    (),
>
    decreases budget,
{
    if budget == 0 {
        (s, Err(UxnError::CycleLimit))
    } else {
        match step(s, reply_at(replies, cycle)) {
            (s1, Ok(Cycle::Continue)) => run(s1, replies, cycle + 1, (budget - 1) as nat),
            (s1, Ok(Cycle::Break)) => (s1, Ok(())),
            (s1, Err(e)) => (s1, Err(e)),
        }
    }
}

/// An evaluation from `start`: the program counter is set to `start`; then,
/// unless `start` is 0 or the machine is halted, a run of at most `budget`
/// cycles.
pub open spec fn eval(s: MachineState, start: u16, replies: Seq<DeviceReply>, budget: nat) -> Outcome<
    (),
> {
    let s0 = MachineState { pc: start, ..s };
    if start == 0 || s.halted {
        (s0, Ok(()))
    } else {
        run(s0, replies, 0, budget)
    }
}

/// What a cycle asks of a device of the host.
pub struct DeviceRequest {
    /// The slot of the device, from 1 to 15.
    pub slot: int,
    /// The port of the device, from 0 to 15.
    pub port: u8,
    /// The byte to write, or `None` for a read.
    pub value: Option<u8>,
}

/// What the operation `op` under `mode` asks of a device of the host, if
/// anything, in a state in which the shadow pointers are already set: a
/// `DEI` or a `DEO` whose pops succeed and whose port address selects a slot
/// other than 0.
pub open spec fn dispatch_request(s: MachineState, op: Opcode, mode: InstructionMode) -> Option<
    DeviceRequest,
> {
    match (op, s.pop_byte(mode)) {
        (Opcode::DEI, (_, Ok(a))) => if slot_of(a) != 0 {
            Some(DeviceRequest { slot: slot_of(a), port: port_of(a), value: None })
        } else {
            None
        },
        (Opcode::DEO, (s1, Ok(a))) => match s1.pop(mode) {
            (_, Ok(v)) => if slot_of(a) != 0 {
                Some(DeviceRequest { slot: slot_of(a), port: port_of(a), value: Some(low(v)) })
            } else {
                None
            },
            _ => None,
        },
        _ => None,
    }
}

/// What one instruction asks of a device of the host, if anything.
pub open spec fn instruction_request(s: MachineState, op: Opcode, mode: InstructionMode) -> Option<
    DeviceRequest,
> {
    dispatch_request(prepare(s, mode), op, mode)
}

/// What the next cycle asks of a device of the host, if anything.
pub open spec fn request(s: MachineState) -> Option<DeviceRequest> {
    let byte = s.ram[s.pc as int];
    if byte == BREAK {
        None
    } else {
        instruction_request(
            s.advance(1),
            Opcode::of_instruction(byte),
            InstructionMode::from_bits_spec(byte),
        )
    }
}

/// The next cycle writes to the device in `slot`: it is a `DEO` whose pops
/// succeed and whose port address selects that slot.
pub open spec fn writes_to(s: MachineState, slot: int) -> bool {
    request(s) matches Some(q) && q.slot == slot && q.value is Some
}

/// Some cycle of the run writes to the device in `slot`.  The run is walked
/// as [`run`] walks it.
pub open spec fn run_writes(
    s: MachineState,
    replies: Seq<DeviceReply>,
    cycle: nat,
    budget: nat,
    slot: int,
) -> bool
    decreases budget,
{
    if budget == 0 {
        false
    } else {
        writes_to(s, slot) || match step(s, reply_at(replies, cycle)) {
            (s1, Ok(Cycle::Continue)) => run_writes(
                s1,
                replies,
                cycle + 1,
                (budget - 1) as nat,
                slot,
            ),
            _ => false,
        }
    }
}

/// Some cycle of the evaluation writes to the device in `slot`.  An
/// evaluation from address 0 or on a halted machine has no cycle.
pub open spec fn eval_writes(
    s: MachineState,
    start: u16,
    replies: Seq<DeviceReply>,
    budget: nat,
    slot: int,
) -> bool {
    if start == 0 || s.halted {
        false
    } else {
        run_writes(MachineState { pc: start, ..s }, replies, 0, budget, slot)
    }
}

} // verus!
