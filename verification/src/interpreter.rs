//! The instructions, one function each or one for each family, and the
//! loop that runs them.
use vstd::prelude::*;
use crate::device::{port_of, slot_of, Device, PortAddress};
use crate::error::{ExecutionResult, UxnError};
use crate::mode::InstructionMode;
use crate::opcode::{Opcode, BREAK};
use crate::semantics;
use crate::semantics::{refusal, Cycle, DeviceReply, DeviceRequest};
use crate::state::{low, MachineState};
use crate::uxn::{lemma_split, InstructionPointer, Uxn};

verus! {

/// The most cycles that [`Uxn::eval`] runs.
pub const CYCLE_LIMIT: u64 = 0xffff_ffff_ffff_ffff;

/// The slot and the port that a port address selects: its high and its low
/// nibble.
pub fn route(address: u16) -> (to: (usize, PortAddress))
    ensures
        to.0 == slot_of(address),
        to.1 == port_of(address),
        to.0 < 16,
        to.1 < 16,
{
    assert(((address >> 4) & 0x0f) == (address / 16) % 16 && (address & 0x0f) == address % 16)
        by (bit_vector);
    (((address >> 4) & 0x0f) as usize, (address & 0x0f) as u8)
}

/// What a `DEO` hands to a device: the slot and the port that the port
/// address selects, and the low byte of the value.
pub fn device_call(address: u16, value: u16) -> (call: (usize, PortAddress, u8))
    ensures
        call.0 == slot_of(address),
        call.1 == port_of(address),
        call.2 == low(value),
        call.0 < 16,
        call.1 < 16,
{
    let (slot, port) = route(address);
    proof {
        lemma_split(value);
    }
    (slot, port, #[verifier::truncate] (value as u8))
}

/// What an arithmetic or logic operation makes of `b`, the second pop, and
/// `a`, the first.
pub fn combine(op: Opcode, a: u16, b: u16) -> (r: u16)
    ensures
        r == semantics::combine(op, a, b),
{
    match op {
        Opcode::ADD => b.wrapping_add(a),
        Opcode::SUB => b.wrapping_sub(a),
        Opcode::MUL => b.wrapping_mul(a),
        Opcode::AND => b & a,
        Opcode::ORA => b | a,
        _ => b ^ a,
    }
}

/// `a` shifted left by the high nibble of `control`, then right by its low
/// nibble, in sixteen bits if `short` and in eight if not.
pub fn shift(a: u16, control: u16, short: bool) -> (r: u16)
    ensures
        r == semantics::shift(a, control, short),
{
    let left = (control / 16) % 16;
    let right = control % 16;
    if short {
        (a << left) >> right
    } else {
        ((a << left) & 0xff) >> right
    }
}

/// The device slots of a machine.
pub type Slots = Seq<Option<Box<dyn Device>>>;

/// What an instruction may do to the device slots.  One that asks no device
/// of the host leaves them all as they are.  One that asks the device in a
/// slot leaves every other slot as it is; it leaves that slot too if the
/// slot is empty or the request is a read, and never empties it.
pub open spec fn slots_after(pre: Slots, post: Slots, request: Option<DeviceRequest>) -> bool {
    match request {
        None => post == pre,
        Some(q) => {
            &&& post.len() == pre.len()
            &&& forall|other: int|
                0 <= other < pre.len() && other != q.slot ==> post[other] == pre[other]
            &&& pre[q.slot] is None || q.value is None ==> post == pre
            &&& pre[q.slot] is Some ==> post[q.slot] is Some
        },
    }
}

/// What can be said of the reply to an instruction: it is a refusal where no
/// device of the host is asked and where the slot asked is empty.
pub open spec fn reply_fits(pre: Slots, request: Option<DeviceRequest>, reply: DeviceReply) -> bool {
    match request {
        None => reply == refusal(),
        Some(q) => pre[q.slot] is None ==> reply == refusal(),
    }
}

/// The replies `replies` give each of the first cycles the reply that
/// `trace` records for it.
pub open spec fn agrees(replies: Seq<DeviceReply>, trace: Seq<DeviceReply>) -> bool {
    forall|cycle: nat| cycle < trace.len() ==> semantics::reply_at(replies, cycle) == trace[cycle as int]
}

/// Every cycle of the run gets a reply that fits it: a refusal where the
/// cycle asks no device of the host and where the slot that it asks is
/// empty.  The run is walked as [`semantics::run`] walks it; `slots` are the
/// slots as the run finds them, and no cycle fills or empties one.
pub open spec fn run_fits(
    slots: Slots,
    s: MachineState,
    replies: Seq<DeviceReply>,
    cycle: nat,
    budget: nat,
) -> bool
    decreases budget,
{
    if budget == 0 {
        true
    } else {
        reply_fits(slots, semantics::request(s), semantics::reply_at(replies, cycle))
            && match semantics::step(s, semantics::reply_at(replies, cycle)) {
            (s1, Ok(Cycle::Continue)) => run_fits(
                slots,
                s1,
                replies,
                cycle + 1,
                (budget - 1) as nat,
            ),
            _ => true,
        }
    }
}

/// Every cycle of the evaluation gets a reply that fits it.  An evaluation
/// from address 0 or on a halted machine has no cycle.
pub open spec fn eval_fits(
    slots: Slots,
    s: MachineState,
    start: u16,
    replies: Seq<DeviceReply>,
    budget: nat,
) -> bool {
    start == 0 || s.halted || run_fits(
        slots,
        MachineState { pc: start, ..s },
        replies,
        0,
        budget,
    )
}

/// What an evaluation leaves of the device slots: a slot that no cycle
/// writes to keeps its device, and no slot is filled or emptied.
pub open spec fn slots_after_eval(
    pre: Slots,
    post: Slots,
    s: MachineState,
    start: u16,
    replies: Seq<DeviceReply>,
    budget: nat,
) -> bool {
    &&& post.len() == pre.len()
    &&& forall|slot: int|
        0 <= slot < pre.len() && !#[trigger] semantics::eval_writes(s, start, replies, budget, slot)
            ==> post[slot] == pre[slot]
    &&& forall|slot: int| 0 <= slot < pre.len() ==> (post[slot] is Some <==> pre[slot] is Some)
}

/// A run from `s0` with `replies`, of which `cycle` cycles are done and
/// have led to `now`, goes on from `now` as a run of its own: with the same
/// end, fitting if the rest fits, and writing to the slots in `written` and
/// to those that the rest writes to.
pub open spec fn resumes(
    slots: Slots,
    s0: MachineState,
    now: MachineState,
    replies: Seq<DeviceReply>,
    cycle: nat,
    left: nat,
    written: Set<int>,
) -> bool {
    &&& semantics::run(s0, replies, 0, cycle + left) == semantics::run(now, replies, cycle, left)
    &&& run_fits(slots, s0, replies, 0, cycle + left) == run_fits(
        slots,
        now,
        replies,
        cycle,
        left,
    )
    &&& forall|slot: int|
        #[trigger] semantics::run_writes(s0, replies, 0, cycle + left, slot) == (written.contains(
            slot,
        ) || semantics::run_writes(now, replies, cycle, left, slot))
}

impl Uxn {
    /// Pops one byte whatever the Short flag says, otherwise as `mode` says.
    pub fn pop_byte(&mut self, mode: InstructionMode) -> (r: ExecutionResult<u16>)
        ensures
            (final(self)@, r) == old(self)@.pop_byte(mode),
            final(self).devices() == old(self).devices(),
            r matches Ok(v) ==> v <= 0xff,
    {
        self.pop(mode.with_short(false))
    }

    /// Pops two bytes whatever the Short flag says, otherwise as `mode` says.
    pub fn pop_short(&mut self, mode: InstructionMode) -> (r: ExecutionResult<u16>)
        ensures
            (final(self)@, r) == old(self)@.pop_short(mode),
            final(self).devices() == old(self).devices(),
    {
        self.pop(mode.with_short(true))
    }

    /// Pushes one byte whatever the Short flag says, otherwise as `mode` says.
    pub fn push_byte(&mut self, v: u16, mode: InstructionMode) -> (r: ExecutionResult<()>)
        ensures
            (final(self)@, r) == old(self)@.push_byte(v, mode),
            final(self).devices() == old(self).devices(),
    {
        self.push(v, mode.with_short(false))
    }

    /// Pushes on the stack that `mode` does not select, through its live
    /// pointer: two bytes if `short`, else one.
    pub fn push_opposite(&mut self, v: u16, mode: InstructionMode, short: bool) -> (r:
        ExecutionResult<()>)
        ensures
            (final(self)@, r) == old(self)@.push_opposite(v, mode, short),
            final(self).devices() == old(self).devices(),
    {
        if short {
            self.push16(v, mode.opposite())
        } else {
            self.push8(v, mode.opposite())
        }
    }

    /// `LIT`.
    fn op_lit(&mut self, mode: InstructionMode) -> (r: ExecutionResult<()>)
        ensures
            (final(self)@, r) == semantics::lit(old(self)@, mode),
            final(self).devices() == old(self).devices(),
    {
        let v = match self.peek(self.pc() as usize, mode) {
            Ok(v) => v,
            Err(e) => return Err(e),
        };
        self.push(v, mode)?;
        self.skip(
            if mode.is_short() {
                2
            } else {
                1
            },
        );
        Ok(())
    }

    /// `INC`.
    fn op_inc(&mut self, mode: InstructionMode) -> (r: ExecutionResult<()>)
        ensures
            (final(self)@, r) == semantics::inc(old(self)@, mode),
            final(self).devices() == old(self).devices(),
    {
        let a = self.pop(mode)?;
        self.push(a.wrapping_add(1), mode)
    }

    /// `POP`, `NIP`, `SWP`, `ROT`, `DUP` and `OVR`.
    fn op_shuffle(&mut self, op: Opcode, mode: InstructionMode) -> (r: ExecutionResult<()>)
        ensures
            (final(self)@, r) == semantics::shuffle(old(self)@, op, mode),
            final(self).devices() == old(self).devices(),
    {
        match op {
            Opcode::POP => {
                self.pop(mode)?;
                Ok(())
            },
            Opcode::NIP => {
                let a = self.pop(mode)?;
                self.pop(mode)?;
                self.push(a, mode)
            },
            Opcode::SWP => {
                let a = self.pop(mode)?;
                let b = self.pop(mode)?;
                self.push(a, mode)?;
                self.push(b, mode)
            },
            Opcode::ROT => {
                let a = self.pop(mode)?;
                let b = self.pop(mode)?;
                let c = self.pop(mode)?;
                self.push(b, mode)?;
                self.push(a, mode)?;
                self.push(c, mode)
            },
            Opcode::DUP => {
                let a = self.pop(mode)?;
                self.push(a, mode)?;
                self.push(a, mode)
            },
            _ => {
                let a = self.pop(mode)?;
                let b = self.pop(mode)?;
                self.push(b, mode)?;
                self.push(a, mode)?;
                self.push(b, mode)
            },
        }
    }

    /// `EQU`, `NEQ`, `GTH` and `LTH`.
    fn op_compare(&mut self, op: Opcode, mode: InstructionMode) -> (r: ExecutionResult<()>)
        ensures
            (final(self)@, r) == semantics::compare(old(self)@, op, mode),
            final(self).devices() == old(self).devices(),
    {
        let a = self.pop(mode)?;
        let b = self.pop(mode)?;
        let holds = match op {
            Opcode::EQU => b == a,
            Opcode::NEQ => b != a,
            Opcode::GTH => b > a,
            _ => b < a,
        };
        self.push_byte(
            if holds {
                1
            } else {
                0
            },
            mode,
        )
    }

    /// `JMP`.
    fn op_jmp(&mut self, mode: InstructionMode) -> (r: ExecutionResult<()>)
        ensures
            (final(self)@, r) == semantics::jmp(old(self)@, mode),
            final(self).devices() == old(self).devices(),
    {
        let a = self.pop(mode)?;
        self.warp(a, mode)
    }

    /// `JCN`.
    fn op_jcn(&mut self, mode: InstructionMode) -> (r: ExecutionResult<()>)
        ensures
            (final(self)@, r) == semantics::jcn(old(self)@, mode),
            final(self).devices() == old(self).devices(),
    {
        let a = self.pop(mode)?;
        let c = self.pop_byte(mode)?;
        if c != 0 {
            self.warp(a, mode)
        } else {
            Ok(())
        }
    }

    /// `JSR`.
    fn op_jsr(&mut self, mode: InstructionMode) -> (r: ExecutionResult<()>)
        ensures
            (final(self)@, r) == semantics::jsr(old(self)@, mode),
            final(self).devices() == old(self).devices(),
    {
        let a = self.pop(mode)?;
        self.push_opposite(self.pc(), mode, false)?;
        self.warp(a, mode)
    }

    /// `STH`.
    fn op_sth(&mut self, mode: InstructionMode) -> (r: ExecutionResult<()>)
        ensures
            (final(self)@, r) == semantics::sth(old(self)@, mode),
            final(self).devices() == old(self).devices(),
    {
        let a = self.pop(mode)?;
        self.push_opposite(a, mode, true)
    }

    /// Pops the address that a load or a store works on.
    fn pop_address(&mut self, op: Opcode, mode: InstructionMode) -> (r: ExecutionResult<usize>)
        ensures
            final(self).devices() == old(self).devices(),
            r matches Ok(addr) ==> addr < 65536 && (final(self)@, Ok::<int, UxnError>(addr as int))
                == semantics::pop_address(old(self)@, op, mode),
            r matches Err(e) ==> (final(self)@, Err::<int, UxnError>(e)) == semantics::pop_address(
                old(self)@,
                op,
                mode,
            ),
    {
        match op {
            Opcode::LDZ | Opcode::STZ => {
                let a = self.pop_byte(mode)?;
                Ok(a as usize)
            },
            Opcode::LDR | Opcode::STR => {
                let a = self.pop_byte(mode)?;
                Ok(self.pc().wrapping_add(a) as usize)
            },
            _ => {
                let a = self.pop_short(mode)?;
                Ok(a as usize)
            },
        }
    }

    /// `LDZ`, `LDR` and `LDA`.
    fn op_load(&mut self, op: Opcode, mode: InstructionMode) -> (r: ExecutionResult<()>)
        ensures
            (final(self)@, r) == semantics::load(old(self)@, op, mode),
            final(self).devices() == old(self).devices(),
    {
        let addr = self.pop_address(op, mode)?;
        let v = match self.peek(addr, mode) {
            Ok(v) => v,
            Err(e) => return Err(e),
        };
        self.push(v, mode)
    }

    /// `STZ`, `STR` and `STA`.
    fn op_store(&mut self, op: Opcode, mode: InstructionMode) -> (r: ExecutionResult<()>)
        ensures
            (final(self)@, r) == semantics::store(old(self)@, op, mode),
            final(self).devices() == old(self).devices(),
    {
        let addr = self.pop_address(op, mode)?;
        let v = self.pop(mode)?;
        self.poke(addr, v, mode)
    }

    /// `ADD`, `SUB`, `MUL`, `AND`, `ORA` and `EOR`.
    fn op_arithmetic(&mut self, op: Opcode, mode: InstructionMode) -> (r: ExecutionResult<()>)
        ensures
            (final(self)@, r) == semantics::arithmetic(old(self)@, op, mode),
            final(self).devices() == old(self).devices(),
    {
        let a = self.pop(mode)?;
        let b = self.pop(mode)?;
        self.push(combine(op, a, b), mode)
    }

    /// `DIV`.  With a zero on top of the stack it fails with
    /// `DivisionByZero` and moves no pointer.
    fn op_div(&mut self, mode: InstructionMode) -> (r: ExecutionResult<()>)
        ensures
            (final(self)@, r) == semantics::div(old(self)@, mode),
            final(self).devices() == old(self).devices(),
    {
        match self.top(mode) {
            Ok(0) => return Err(UxnError::DivisionByZero),
            _ => {},
        }
        let a = self.pop(mode)?;
        let b = self.pop(mode)?;
        self.push(b / a, mode)
    }

    /// `SFT`.
    fn op_sft(&mut self, mode: InstructionMode) -> (r: ExecutionResult<()>)
        ensures
            (final(self)@, r) == semantics::sft(old(self)@, mode),
            final(self).devices() == old(self).devices(),
    {
        let a = self.pop(mode)?;
        let control = self.pop_byte(mode)?;
        self.push(shift(a, control, mode.is_short()), mode)
    }

    /// Finishes a `DEI` with the answer to its read: a byte is pushed, an
    /// error is handed on.
    pub fn deliver(&mut self, answer: ExecutionResult<u8>, mode: InstructionMode) -> (r:
        ExecutionResult<()>)
        ensures
            (final(self)@, r) == semantics::deliver(old(self)@, answer, mode),
            final(self).devices() == old(self).devices(),
    {
        match answer {
            Ok(b) => self.push(b as u16, mode),
            Err(e) => Err(e),
        }
    }

    /// `DEI`, with the reply of the device that it asked.
    fn op_dei(&mut self, mode: InstructionMode) -> (out: (ExecutionResult<()>, Ghost<DeviceReply>))
        ensures
            (final(self)@, out.0) == semantics::dei(old(self)@, mode, out.1@),
            final(self).devices() == old(self).devices(),
            reply_fits(
                old(self).devices(),
                semantics::dispatch_request(old(self)@, Opcode::DEI, mode),
                out.1@,
            ),
    {
        let a = match self.pop_byte(mode) {
            Ok(a) => a,
            Err(e) => return (Err(e), Ghost(refusal())),
        };
        let (slot, port) = route(a);
        proof {
            self.lemma_wf();
        }
        if slot == 0 {
            let answer = self.dei(port);
            (self.deliver(answer, mode), Ghost(refusal()))
        } else {
            let answer = self.read_device(slot, port);
            (self.deliver(answer, mode), Ghost(answer))
        }
    }

    /// `DEO`, with the reply of the device that it asked.
    fn op_deo(&mut self, mode: InstructionMode) -> (out: (ExecutionResult<()>, Ghost<DeviceReply>))
        ensures
            (final(self)@, out.0) == semantics::deo(old(self)@, mode, out.1@),
            slots_after(
                old(self).devices(),
                final(self).devices(),
                semantics::dispatch_request(old(self)@, Opcode::DEO, mode),
            ),
            reply_fits(
                old(self).devices(),
                semantics::dispatch_request(old(self)@, Opcode::DEO, mode),
                out.1@,
            ),
    {
        let a = match self.pop_byte(mode) {
            Ok(a) => a,
            Err(e) => return (Err(e), Ghost(refusal())),
        };
        let v = match self.pop(mode) {
            Ok(v) => v,
            Err(e) => return (Err(e), Ghost(refusal())),
        };
        let (slot, port, value) = device_call(a, v);
        proof {
            self.lemma_wf();
        }
        if slot == 0 {
            (self.deo(port, value), Ghost(refusal()))
        } else {
            match self.write_device(slot, port, value) {
                Ok(_) => (Ok(()), Ghost(Ok(0u8))),
                Err(e) => (Err(e), Ghost(Err(e))),
            }
        }
    }

    /// Runs one operation on a machine whose shadow pointers are set, with
    /// the reply of the device that it asked, if it asked one.
    fn dispatch(&mut self, op: Opcode, mode: InstructionMode) -> (out: (
        ExecutionResult<()>,
        Ghost<DeviceReply>,
    ))
        ensures
            (final(self)@, out.0) == semantics::dispatch(old(self)@, op, mode, out.1@),
            slots_after(
                old(self).devices(),
                final(self).devices(),
                semantics::dispatch_request(old(self)@, op, mode),
            ),
            reply_fits(
                old(self).devices(),
                semantics::dispatch_request(old(self)@, op, mode),
                out.1@,
            ),
    {
        match op {
            Opcode::LIT => (self.op_lit(mode), Ghost(refusal())),
            Opcode::INC => (self.op_inc(mode), Ghost(refusal())),
            Opcode::POP | Opcode::NIP | Opcode::SWP | Opcode::ROT | Opcode::DUP | Opcode::OVR => (
                self.op_shuffle(op, mode),
                Ghost(refusal()),
            ),
            Opcode::EQU | Opcode::NEQ | Opcode::GTH | Opcode::LTH => (
                self.op_compare(op, mode),
                Ghost(refusal()),
            ),
            Opcode::JMP => (self.op_jmp(mode), Ghost(refusal())),
            Opcode::JCN => (self.op_jcn(mode), Ghost(refusal())),
            Opcode::JSR => (self.op_jsr(mode), Ghost(refusal())),
            Opcode::STH => (self.op_sth(mode), Ghost(refusal())),
            Opcode::LDZ | Opcode::LDR | Opcode::LDA => (self.op_load(op, mode), Ghost(refusal())),
            Opcode::STZ | Opcode::STR | Opcode::STA => (self.op_store(op, mode), Ghost(refusal())),
            Opcode::DEI => self.op_dei(mode),
            Opcode::DEO => self.op_deo(mode),
            Opcode::ADD | Opcode::SUB | Opcode::MUL | Opcode::AND | Opcode::ORA | Opcode::EOR => (
                self.op_arithmetic(op, mode),
                Ghost(refusal()),
            ),
            Opcode::DIV => (self.op_div(mode), Ghost(refusal())),
            Opcode::SFT => (self.op_sft(mode), Ghost(refusal())),
        }
    }

    /// Runs one instruction, with the reply of the device that it asked, if
    /// it asked one.
    fn execute_traced(&mut self, op: Opcode, mode: InstructionMode) -> (out: (
        ExecutionResult<()>,
        Ghost<DeviceReply>,
    ))
        ensures
            (final(self)@, out.0) == semantics::execute(old(self)@, op, mode, out.1@),
            slots_after(
                old(self).devices(),
                final(self).devices(),
                semantics::instruction_request(old(self)@, op, mode),
            ),
            reply_fits(
                old(self).devices(),
                semantics::instruction_request(old(self)@, op, mode),
                out.1@,
            ),
    {
        if mode.is_keep() {
            self.snapshot();
        }
        self.dispatch(op, mode)
    }

    /// Runs one instruction, the program counter already behind its byte:
    /// with the Keep flag it first sets the shadow pointers, then it does
    /// what `op` says under `mode`.
    ///
    /// An instruction that asks no device of the host does exactly what
    /// [`semantics::execute`] says, and so does one that asks an empty slot.
    /// One that asks a device does what `semantics::execute` says for the
    /// reply that the device gave.  No device but the one asked is touched.
    pub fn execute(&mut self, op: Opcode, mode: InstructionMode) -> (r: ExecutionResult<()>)
        ensures
            exists|reply: DeviceReply|
                {
                    &&& reply_fits(
                        old(self).devices(),
                        semantics::instruction_request(old(self)@, op, mode),
                        reply,
                    )
                    &&& (final(self)@, r) == #[trigger] semantics::execute(
                        old(self)@,
                        op,
                        mode,
                        reply,
                    )
                },
            slots_after(
                old(self).devices(),
                final(self).devices(),
                semantics::instruction_request(old(self)@, op, mode),
            ),
    {
        let (r, Ghost(reply)) = self.execute_traced(op, mode);
        r
    }

    /// Runs one cycle, with the reply of the device that it asked, if it
    /// asked one.
    fn step_traced(&mut self) -> (out: (ExecutionResult<Cycle>, Ghost<DeviceReply>))
        ensures
            (final(self)@, out.0) == semantics::step(old(self)@, out.1@),
            slots_after(
                old(self).devices(),
                final(self).devices(),
                semantics::request(old(self)@),
            ),
            reply_fits(old(self).devices(), semantics::request(old(self)@), out.1@),
    {
        let byte = self.fetch();
        if byte == BREAK {
            return (Ok(Cycle::Break), Ghost(refusal()));
        }
        let op = Opcode::from_instruction(byte);
        let mode = InstructionMode::from_bits(byte);
        let (r, reply) = self.execute_traced(op, mode);
        match r {
            Ok(_) => (Ok(Cycle::Continue), reply),
            Err(e) => (Err(e), reply),
        }
    }

    /// Runs one cycle: fetches the byte at the program counter, moves the
    /// counter past it, and unless it is the break byte runs the instruction
    /// that it encodes.
    ///
    /// A cycle that asks no device of the host does exactly what
    /// [`semantics::step`] says, and so does one that asks an empty slot.
    /// One that asks a device does what `semantics::step` says for the reply
    /// that the device gave.  No device but the one asked is touched.
    pub fn step(&mut self) -> (r: ExecutionResult<Cycle>)
        ensures
            exists|reply: DeviceReply|
                {
                    &&& reply_fits(old(self).devices(), semantics::request(old(self)@), reply)
                    &&& (final(self)@, r) == #[trigger] semantics::step(old(self)@, reply)
                },
            slots_after(
                old(self).devices(),
                final(self).devices(),
                semantics::request(old(self)@),
            ),
    {
        let (r, Ghost(reply)) = self.step_traced();
        r
    }

    /// Evaluates from `start_addr`, for at most `budget` cycles.
    ///
    /// The program counter is set to `start_addr`.  If `start_addr` is 0 or
    /// the machine is halted, nothing else happens: no instruction is
    /// fetched and no device is called.  Otherwise cycles run until one
    /// meets the break byte, which ends the evaluation well; until an
    /// instruction fails, which ends it with that error and leaves the
    /// machine as it was at that point; or until `budget` cycles have run,
    /// which ends it with `CycleLimit`.
    ///
    /// The evaluation is [`semantics::eval`] for the replies that the
    /// devices gave.  Each reply fits its cycle: it is a refusal where no
    /// device is asked and where the slot asked is empty.  A device that no
    /// cycle writes to stays as it was.  On a machine without devices of the
    /// host the evaluation is `semantics::eval` with no replies.
    pub fn eval_within(&mut self, start_addr: InstructionPointer, budget: u64) -> (r: Result<
        (),
        UxnError,
    >)
        ensures
            exists|replies: Seq<DeviceReply>|
                {
                    &&& (final(self)@, r) == #[trigger] semantics::eval(
                        old(self)@,
                        start_addr,
                        replies,
                        budget as nat,
                    )
                    &&& eval_fits(
                        old(self).devices(),
                        old(self)@,
                        start_addr,
                        replies,
                        budget as nat,
                    )
                    &&& slots_after_eval(
                        old(self).devices(),
                        final(self).devices(),
                        old(self)@,
                        start_addr,
                        replies,
                        budget as nat,
                    )
                },
            start_addr == 0 || old(self)@.halted ==> final(self).devices() == old(self).devices(),
            old(self).no_devices() ==> final(self).devices() == old(self).devices() && (
                final(self)@,
                r,
            ) == semantics::eval(old(self)@, start_addr, Seq::empty(), budget as nat),
            final(self).devices().len() == 16,
            forall|slot: int|
                0 <= slot < 16 ==> (final(self).devices()[slot] is Some <==> old(
                    self,
                ).devices()[slot] is Some),
    {
        proof {
            self.lemma_wf();
        }
        let ghost slots = self.devices();
        self.set_pc(start_addr);
        if start_addr == 0 || self.is_halted() {
            assert((self@, Ok::<(), UxnError>(())) == semantics::eval(
                old(self)@,
                start_addr,
                Seq::empty(),
                budget as nat,
            ));
            assert(slots_after_eval(
                slots,
                self.devices(),
                old(self)@,
                start_addr,
                Seq::empty(),
                budget as nat,
            ));
            return Ok(());
        }
        let ghost s0 = self@;
        let ghost mut trace: Seq<DeviceReply> = Seq::empty();
        let ghost mut written: Set<int> = Set::empty();
        let mut left = budget;
        assert(resumes(slots, s0, self@, trace, 0, left as nat, written));
        while left > 0
            invariant
                start_addr != 0,
                !old(self)@.halted,
                s0 == (MachineState { pc: start_addr, ..old(self)@ }),
                slots == old(self).devices(),
                slots.len() == 16,
                left <= budget,
                trace.len() == budget - left,
                forall|replies: Seq<DeviceReply>|
                    agrees(replies, trace) ==> #[trigger] resumes(
                        slots,
                        s0,
                        self@,
                        replies,
                        trace.len(),
                        left as nat,
                        written,
                    ),
                self.devices().len() == 16,
                forall|slot: int|
                    0 <= slot < 16 ==> (self.devices()[slot] is Some <==> slots[slot] is Some),
                forall|slot: int|
                    0 <= slot < 16 && !written.contains(slot) ==> self.devices()[slot]
                        == slots[slot],
                old(self).no_devices() ==> self.devices() == slots && agrees(Seq::empty(), trace),
            decreases left,
        {
            let ghost before = self@;
            let ghost cycle = trace.len();
            let ghost slots_before = self.devices();
            let (r, Ghost(reply)) = self.step_traced();
            let ghost longer = trace.push(reply);
            let ghost unmarked = written;
            let ghost marked = mark(written, before);
            proof {
                lemma_trace_grows(trace, reply);
                assert forall|slot: int| 0 <= slot < 16 && !marked.contains(slot) implies (
                #[trigger] self.devices()[slot]) == slots[slot] by {
                    assert(slots_before[slot] == slots[slot]);
                }
                if old(self).no_devices() {
                    assert(reply == refusal());
                    assert(self.devices() == slots);
                    assert forall|c: nat| c < longer.len() implies semantics::reply_at(
                        Seq::empty(),
                        c,
                    ) == longer[c as int] by {
                        if c < trace.len() {
                            assert(longer[c as int] == trace[c as int]);
                        }
                    }
                }
            }
            match r {
                Ok(Cycle::Continue) => {
                    proof {
                        trace = longer;
                        written = marked;
                    }
                    left -= 1;
                    assert forall|replies: Seq<DeviceReply>|
                        agrees(replies, trace) implies #[trigger] resumes(
                        slots,
                        s0,
                        self@,
                        replies,
                        trace.len(),
                        left as nat,
                        written,
                    ) by {
                        assert(resumes(slots, s0, before, replies, cycle, (left + 1) as nat, unmarked));
                        lemma_run_goes_on(
                            slots,
                            s0,
                            before,
                            self@,
                            replies,
                            cycle,
                            (left + 1) as nat,
                            unmarked,
                        );
                    }
                },
                Ok(Cycle::Break) => {
                    proof {
                        assert(resumes(slots, s0, before, longer, cycle, left as nat, written));
                        lemma_run_ends(
                            slots,
                            old(self)@,
                            start_addr,
                            before,
                            self@,
                            Ok(()),
                            longer,
                            cycle,
                            left as nat,
                            written,
                            self.devices(),
                        );
                        if old(self).no_devices() {
                            assert(resumes(
                                slots,
                                s0,
                                before,
                                Seq::empty(),
                                cycle,
                                left as nat,
                                written,
                            ));
                            lemma_run_ends(
                                slots,
                                old(self)@,
                                start_addr,
                                before,
                                self@,
                                Ok(()),
                                Seq::empty(),
                                cycle,
                                left as nat,
                                written,
                                self.devices(),
                            );
                        }
                    }
                    return Ok(());
                },
                Err(e) => {
                    proof {
                        assert(resumes(slots, s0, before, longer, cycle, left as nat, written));
                        lemma_run_ends(
                            slots,
                            old(self)@,
                            start_addr,
                            before,
                            self@,
                            Err(e),
                            longer,
                            cycle,
                            left as nat,
                            written,
                            self.devices(),
                        );
                        if old(self).no_devices() {
                            assert(resumes(
                                slots,
                                s0,
                                before,
                                Seq::empty(),
                                cycle,
                                left as nat,
                                written,
                            ));
                            lemma_run_ends(
                                slots,
                                old(self)@,
                                start_addr,
                                before,
                                self@,
                                Err(e),
                                Seq::empty(),
                                cycle,
                                left as nat,
                                written,
                                self.devices(),
                            );
                        }
                    }
                    return Err(e);
                },
            }
        }
        proof {
            assert(agrees(trace, trace));
            assert(resumes(slots, s0, self@, trace, trace.len(), 0, written));
            assert((self@, Err::<(), UxnError>(UxnError::CycleLimit)) == semantics::eval(
                old(self)@,
                start_addr,
                trace,
                budget as nat,
            ));
            assert(eval_fits(slots, old(self)@, start_addr, trace, budget as nat));
            assert forall|slot: int|
                0 <= slot < 16 && !#[trigger] semantics::eval_writes(
                    old(self)@,
                    start_addr,
                    trace,
                    budget as nat,
                    slot,
                ) implies self.devices()[slot] == slots[slot] by {
                assert(semantics::run_writes(s0, trace, 0, trace.len() + 0, slot)
                    == written.contains(slot));
            }
            if old(self).no_devices() {
                assert(resumes(slots, s0, self@, Seq::empty(), trace.len(), 0, written));
            }
        }
        Err(UxnError::CycleLimit)
    }

    /// Evaluates from `start_addr` until the program breaks or fails.
    ///
    /// The program counter is set to `start_addr`.  If `start_addr` is 0 or
    /// the machine is halted, nothing else happens: no instruction is
    /// fetched and no device is called.  Otherwise cycles run until one
    /// meets the break byte, which ends the evaluation well, or until an
    /// instruction fails, which ends it with that error and leaves the
    /// machine as it was at that point.  A program that has neither broken
    /// nor failed after [`CYCLE_LIMIT`] cycles is stopped with `CycleLimit`.
    ///
    /// The evaluation is [`semantics::eval`] for the replies that the
    /// devices gave.  Each reply fits its cycle: it is a refusal where no
    /// device is asked and where the slot asked is empty.  A device that no
    /// cycle writes to stays as it was.  On a machine without devices of the
    /// host the evaluation is `semantics::eval` with no replies.
    pub fn eval(&mut self, start_addr: InstructionPointer) -> (r: Result<(), UxnError>)
        ensures
            exists|replies: Seq<DeviceReply>|
                {
                    &&& (final(self)@, r) == #[trigger] semantics::eval(
                        old(self)@,
                        start_addr,
                        replies,
                        CYCLE_LIMIT as nat,
                    )
                    &&& eval_fits(
                        old(self).devices(),
                        old(self)@,
                        start_addr,
                        replies,
                        CYCLE_LIMIT as nat,
                    )
                    &&& slots_after_eval(
                        old(self).devices(),
                        final(self).devices(),
                        old(self)@,
                        start_addr,
                        replies,
                        CYCLE_LIMIT as nat,
                    )
                },
            start_addr == 0 || old(self)@.halted ==> final(self).devices() == old(self).devices(),
            old(self).no_devices() ==> final(self).devices() == old(self).devices() && (
                final(self)@,
                r,
            ) == semantics::eval(old(self)@, start_addr, Seq::empty(), CYCLE_LIMIT as nat),
            final(self).devices().len() == 16,
            forall|slot: int|
                0 <= slot < 16 ==> (final(self).devices()[slot] is Some <==> old(
                    self,
                ).devices()[slot] is Some),
    {
        self.eval_within(start_addr, CYCLE_LIMIT)
    }
}

/// The slots written to once the next cycle from `s` is done.
pub open spec fn mark(written: Set<int>, s: MachineState) -> Set<int> {
    match semantics::request(s) {
        Some(q) => if q.value is Some {
            written.insert(q.slot)
        } else {
            written
        },
        None => written,
    }
}

/// Replies that agree with a trace and its next reply agree with the trace
/// and give the next cycle that reply.
proof fn lemma_trace_grows(trace: Seq<DeviceReply>, reply: DeviceReply)
    ensures
        agrees(trace.push(reply), trace.push(reply)),
        forall|replies: Seq<DeviceReply>| #[trigger]
            agrees(replies, trace.push(reply)) ==> agrees(replies, trace) && semantics::reply_at(
                replies,
                trace.len(),
            ) == reply,
{
    let longer = trace.push(reply);
    assert forall|replies: Seq<DeviceReply>| #[trigger] agrees(replies, longer) implies agrees(
        replies,
        trace,
    ) && semantics::reply_at(replies, trace.len()) == reply by {
        assert(longer[trace.len() as int] == reply);
        assert forall|c: nat| c < trace.len() implies semantics::reply_at(replies, c)
            == trace[c as int] by {
            assert(longer[c as int] == trace[c as int]);
        }
    }
}

/// A run that resumes at a cycle which does not end it resumes at the next.
proof fn lemma_run_goes_on(
    slots: Slots,
    s0: MachineState,
    before: MachineState,
    after: MachineState,
    replies: Seq<DeviceReply>,
    cycle: nat,
    left: nat,
    written: Set<int>,
)
    requires
        left > 0,
        resumes(slots, s0, before, replies, cycle, left, written),
        semantics::step(before, semantics::reply_at(replies, cycle)) == (
            after,
            Ok::<Cycle, UxnError>(Cycle::Continue),
        ),
        reply_fits(slots, semantics::request(before), semantics::reply_at(replies, cycle)),
    ensures
        resumes(slots, s0, after, replies, cycle + 1, (left - 1) as nat, mark(written, before)),
{
    let marked = mark(written, before);
    assert(cycle + left == cycle + 1 + (left - 1) as nat);
    assert forall|slot: int| #[trigger]
        semantics::run_writes(s0, replies, 0, cycle + 1 + (left - 1) as nat, slot) == (
        marked.contains(slot) || semantics::run_writes(
            after,
            replies,
            cycle + 1,
            (left - 1) as nat,
            slot,
        )) by {
        assert(semantics::run_writes(s0, replies, 0, cycle + left, slot) == (written.contains(slot)
            || semantics::run_writes(before, replies, cycle, left, slot)));
        assert(semantics::run_writes(before, replies, cycle, left, slot) == (semantics::writes_to(
            before,
            slot,
        ) || semantics::run_writes(after, replies, cycle + 1, (left - 1) as nat, slot)));
    }
}

/// A run whose last cycle ended it, well or with an error, is the
/// evaluation that the replies describe.
proof fn lemma_run_ends(
    slots: Slots,
    s: MachineState,
    start: u16,
    before: MachineState,
    after: MachineState,
    r: Result<(), UxnError>,
    replies: Seq<DeviceReply>,
    cycle: nat,
    left: nat,
    written: Set<int>,
    post: Slots,
)
    requires
        start != 0,
        !s.halted,
        left > 0,
        slots.len() == 16,
        post.len() == 16,
        resumes(slots, MachineState { pc: start, ..s }, before, replies, cycle, left, written),
        semantics::step(before, semantics::reply_at(replies, cycle)).0 == after,
        match semantics::step(before, semantics::reply_at(replies, cycle)).1 {
            Ok(Cycle::Continue) => false,
            Ok(Cycle::Break) => r == Ok::<(), UxnError>(()),
            Err(e) => r == Err::<(), UxnError>(e),
        },
        reply_fits(slots, semantics::request(before), semantics::reply_at(replies, cycle)),
        forall|slot: int|
            0 <= slot < 16 && !mark(written, before).contains(slot) ==> post[slot] == slots[slot],
        forall|slot: int| 0 <= slot < 16 ==> (post[slot] is Some <==> slots[slot] is Some),
    ensures
        (after, r) == semantics::eval(s, start, replies, cycle + left),
        eval_fits(slots, s, start, replies, cycle + left),
        slots_after_eval(slots, post, s, start, replies, cycle + left),
{
    let s0 = MachineState { pc: start, ..s };
    assert(semantics::run(before, replies, cycle, left) == (after, r));
    assert(run_fits(slots, before, replies, cycle, left));
    assert forall|slot: int|
        0 <= slot < 16 && !#[trigger] semantics::eval_writes(
            s,
            start,
            replies,
            cycle + left,
            slot,
        ) implies post[slot] == slots[slot] by {
        assert(semantics::run_writes(s0, replies, 0, cycle + left, slot) == (written.contains(slot)
            || semantics::run_writes(before, replies, cycle, left, slot)));
        assert(semantics::run_writes(before, replies, cycle, left, slot) == semantics::writes_to(
            before,
            slot,
        ));
    }
}

} // verus!
