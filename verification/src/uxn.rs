//! The executable machine.
use vstd::prelude::*;
use crate::device::{Device, PortAddress};
use crate::error::{ExecutionResult, UxnError};
use crate::mode::InstructionMode;
use crate::semantics::{system_dei, system_deo};
use crate::state::{high, join, low, MachineState, StackState};

verus! {

/// An address of an instruction.
pub type InstructionPointer = u16;

/// A stack pointer.
pub type StackPointer = u8;

/// The two bytes of a value, joined by shifting, are the value `join` names.
pub proof fn lemma_join(hi: u8, lo: u8)
    ensures
        (hi as u16) << 8 | (lo as u16) == join(hi, lo),
{
    assert((hi as u16) << 8 | (lo as u16) == (hi as u16) * 256 + (lo as u16)) by (bit_vector);
}

/// The two bytes of a value, split by shifting and masking, are its high and
/// its low byte.
pub proof fn lemma_split(v: u16)
    ensures
        (v >> 8) == high(v),
        (v & 0xff) == low(v),
        v as u8 == low(v),
{
    assert((v >> 8) == v / 256 && (v & 0xff) == v % 256 && (v as u8) == v % 256) by (bit_vector);
}

/// One of the machine's two stacks.
pub struct Stack {
    ptr: StackPointer,
    kptr: StackPointer,
    data: [u8; 256],
}

impl View for Stack {
    type V = StackState;

    closed spec fn view(&self) -> StackState {
        StackState { ptr: self.ptr, kptr: self.kptr, data: self.data@ }
    }
}

impl Stack {
    /// An empty stack of zero bytes.
    pub fn new() -> (s: Stack)
        ensures
            s@.ptr == 0,
            s@.kptr == 0,
            s@.wf(),
            forall|i: int| 0 <= i < 256 ==> s@.data[i] == 0,
    {
        Stack { ptr: 0, kptr: 0, data: [0u8; 256] }
    }

    /// Every stack holds 256 bytes.
    pub proof fn lemma_wf(&self)
        ensures
            self@.wf(),
    {
    }

    /// The live pointer: the depth of the stack.
    pub fn ptr(&self) -> (p: StackPointer)
        ensures
            p == self@.ptr,
    {
        self.ptr
    }

    /// The shadow pointer.
    pub fn kptr(&self) -> (p: StackPointer)
        ensures
            p == self@.kptr,
    {
        self.kptr
    }

    /// The byte at `index`, whether or not a pointer has reached it.
    pub fn byte(&self, index: u8) -> (b: u8)
        ensures
            b == self@.data[index as int],
    {
        self.data[index as usize]
    }

    /// The value that a pop would read, with no pointer moved: through the
    /// shadow pointer if `keep`, two bytes if `short`.
    pub fn top(&self, keep: bool, short: bool) -> (r: ExecutionResult<u16>)
        ensures
            r == self@.top(keep, short),
    {
        let c = if keep {
            self.kptr
        } else {
            self.ptr
        };
        if short {
            if c <= 1 {
                return Err(UxnError::StackUnderflow);
            }
            let hi = self.data[c as usize - 2];
            let lo = self.data[c as usize - 1];
            proof {
                lemma_join(hi, lo);
            }
            Ok((hi as u16) << 8 | lo as u16)
        } else {
            if c == 0 {
                return Err(UxnError::StackUnderflow);
            }
            Ok(self.data[c as usize - 1] as u16)
        }
    }

    /// Sets the shadow pointer to the live pointer.
    pub fn snapshot(&mut self)
        ensures
            final(self)@ == old(self)@.snapshot(),
    {
        self.kptr = self.ptr;
    }

    /// Pops one byte through the live pointer.
    pub fn pop8(&mut self) -> (r: ExecutionResult<u16>)
        ensures
            (final(self)@, r) == old(self)@.pop8(false),
    {
        if self.ptr == 0 {
            return Err(UxnError::StackUnderflow);
        }
        self.ptr -= 1;
        let value = self.data[self.ptr as usize];
        Ok(value as u16)
    }

    /// Pops two bytes through the live pointer.
    pub fn pop16(&mut self) -> (r: ExecutionResult<u16>)
        ensures
            (final(self)@, r) == old(self)@.pop16(false),
    {
        if self.ptr <= 1 {
            return Err(UxnError::StackUnderflow);
        }
        self.ptr -= 2;
        let hi = self.data[self.ptr as usize];
        let lo = self.data[self.ptr as usize + 1];
        proof {
            lemma_join(hi, lo);
        }
        Ok((hi as u16) << 8 | lo as u16)
    }

    /// Pops one byte through the shadow pointer.
    pub fn kpop8(&mut self) -> (r: ExecutionResult<u16>)
        ensures
            (final(self)@, r) == old(self)@.pop8(true),
    {
        if self.kptr == 0 {
            return Err(UxnError::StackUnderflow);
        }
        self.kptr -= 1;
        let value = self.data[self.kptr as usize];
        Ok(value as u16)
    }

    /// Pops two bytes through the shadow pointer.
    pub fn kpop16(&mut self) -> (r: ExecutionResult<u16>)
        ensures
            (final(self)@, r) == old(self)@.pop16(true),
    {
        if self.kptr <= 1 {
            return Err(UxnError::StackUnderflow);
        }
        self.kptr -= 2;
        let hi = self.data[self.kptr as usize];
        let lo = self.data[self.kptr as usize + 1];
        proof {
            lemma_join(hi, lo);
        }
        Ok((hi as u16) << 8 | lo as u16)
    }

    /// Pushes the low byte of `v` through the live pointer.
    pub fn push8(&mut self, v: u16) -> (r: ExecutionResult<()>)
        ensures
            (final(self)@, r) == old(self)@.push8(false, v),
    {
        if self.ptr >= 255 {
            return Err(UxnError::StackOverflow);
        }
        proof {
            lemma_split(v);
        }
        self.data[self.ptr as usize] = v as u8;
        self.ptr += 1;
        Ok(())
    }

    /// Pushes `v`, high byte first, through the live pointer.
    pub fn push16(&mut self, v: u16) -> (r: ExecutionResult<()>)
        ensures
            (final(self)@, r) == old(self)@.push16(false, v),
    {
        if self.ptr >= 254 {
            return Err(UxnError::StackOverflow);
        }
        proof {
            lemma_split(v);
        }
        self.data[self.ptr as usize] = (v >> 8) as u8;
        self.data[self.ptr as usize + 1] = (v & 0xff) as u8;
        self.ptr += 2;
        Ok(())
    }

    /// Pushes the low byte of `v` through the shadow pointer.
    pub fn kpush8(&mut self, v: u16) -> (r: ExecutionResult<()>)
        ensures
            (final(self)@, r) == old(self)@.push8(true, v),
    {
        if self.kptr >= 255 {
            return Err(UxnError::StackOverflow);
        }
        proof {
            lemma_split(v);
        }
        self.data[self.kptr as usize] = v as u8;
        self.kptr += 1;
        Ok(())
    }

    /// Pushes `v`, high byte first, through the shadow pointer.
    pub fn kpush16(&mut self, v: u16) -> (r: ExecutionResult<()>)
        ensures
            (final(self)@, r) == old(self)@.push16(true, v),
    {
        if self.kptr >= 254 {
            return Err(UxnError::StackOverflow);
        }
        proof {
            lemma_split(v);
        }
        self.data[self.kptr as usize] = (v >> 8) as u8;
        self.data[self.kptr as usize + 1] = (v & 0xff) as u8;
        self.kptr += 2;
        Ok(())
    }
}

/// The virtual machine: 64 KiB of memory, a program counter, the working
/// stack, the return stack, sixteen device slots and a halt flag.
///
/// Slot 0 is the system device, which the machine itself implements.  Each of
/// the slots 1 to 15 holds a device of the host, or none; an empty slot
/// refuses every access.
pub struct Uxn {
    ram: [u8; 65536],
    pc: InstructionPointer,
    wst: Stack,
    rst: Stack,
    devices: [Option<Box<dyn Device>>; 16],
    is_halted: bool,
}

impl View for Uxn {
    type V = MachineState;

    closed spec fn view(&self) -> MachineState {
        MachineState {
            ram: self.ram@,
            pc: self.pc,
            wst: self.wst@,
            rst: self.rst@,
            halted: self.is_halted,
        }
    }
}

impl Uxn {
    /// The device slots: sixteen of them, each a device of the host or none.
    pub closed spec fn devices(&self) -> Seq<Option<Box<dyn Device>>> {
        self.devices@
    }

    /// No slot holds a device of the host.
    pub open spec fn no_devices(&self) -> bool {
        forall|slot: int| 0 <= slot < 16 ==> self.devices()[slot] is None
    }

    /// Every machine has 65536 bytes of memory, 256 bytes in each stack and
    /// sixteen device slots.
    pub broadcast proof fn lemma_wf(&self)
        ensures
            #[trigger] self@.wf(),
            self.devices().len() == 16,
    {
    }

    /// A machine with zeroed memory and no device of the host in any slot.
    pub fn new() -> (uxn: Self)
        ensures
            uxn@ == MachineState::initial(),
            uxn.no_devices(),
    {
        let uxn = Uxn {
            ram: [0u8; 65536],
            pc: 0,
            wst: Stack::new(),
            rst: Stack::new(),
            devices: [
                None,
                None,
                None,
                None,
                None,
                None,
                None,
                None,
                None,
                None,
                None,
                None,
                None,
                None,
                None,
                None,
            ],
            is_halted: false,
        };
        assert(uxn@.ram =~= MachineState::initial().ram);
        assert(uxn@.wst.data =~= MachineState::initial().wst.data);
        assert(uxn@.rst.data =~= MachineState::initial().rst.data);
        uxn
    }

    /// A machine with zeroed memory and the given devices in its slots.  The
    /// entry for slot 0 is never called: that slot is the system device.
    pub fn with_devices(devices: [Option<Box<dyn Device>>; 16]) -> (uxn: Self)
        ensures
            uxn@ == MachineState::initial(),
            uxn.devices() == devices@,
    {
        let uxn = Uxn {
            ram: [0u8; 65536],
            pc: 0,
            wst: Stack::new(),
            rst: Stack::new(),
            devices,
            is_halted: false,
        };
        assert(uxn@.ram =~= MachineState::initial().ram);
        assert(uxn@.wst.data =~= MachineState::initial().wst.data);
        assert(uxn@.rst.data =~= MachineState::initial().rst.data);
        uxn
    }

    /// Resets the machine for another program: memory, the program counter,
    /// the stack pointers and the halt flag.  The devices stay.
    pub fn boot(&mut self)
        ensures
            final(self)@ == old(self)@.boot(),
            final(self).devices() == old(self).devices(),
    {
        self.wst.ptr = 0;
        self.wst.kptr = self.wst.ptr;
        self.rst.ptr = 0;
        self.rst.kptr = self.rst.ptr;
        self.ram = [0u8; 65536];
        self.pc = 0;
        self.is_halted = false;
        assert(self@.ram =~= old(self)@.boot().ram);
    }

    /// Copies `program` into memory from `addr` on.
    pub fn load_program(&mut self, program: &[u8], addr: usize)
        requires
            addr + program.len() <= 65536,
        ensures
            final(self)@ == old(self)@.load(program@, addr as int),
            final(self).devices() == old(self).devices(),
    {
        let n = program.len();
        let mut i: usize = 0;
        while i < n
            invariant
                n == program.len(),
                addr + n <= 65536,
                0 <= i <= n,
                self.pc == old(self).pc,
                self.wst == old(self).wst,
                self.rst == old(self).rst,
                self.is_halted == old(self).is_halted,
                self.devices == old(self).devices,
                forall|j: int| 0 <= j < 65536 ==> self.ram@[j] == if addr <= j < addr + i {
                    program@[j - addr]
                } else {
                    old(self).ram@[j]
                },
            decreases n - i,
        {
            self.ram[addr + i] = program[i];
            i += 1;
        }
        assert(self@.ram =~= old(self)@.load(program@, addr as int).ram);
    }

    /// The program counter.
    pub fn pc(&self) -> (pc: InstructionPointer)
        ensures
            pc == self@.pc,
    {
        self.pc
    }

    /// Whether a write to the halt port has halted the machine.
    pub fn is_halted(&self) -> (h: bool)
        ensures
            h == self@.halted,
    {
        self.is_halted
    }

    /// The working stack.
    pub fn working_stack(&self) -> (s: &Stack)
        ensures
            s@ == self@.wst,
    {
        &self.wst
    }

    /// The return stack.
    pub fn return_stack(&self) -> (s: &Stack)
        ensures
            s@ == self@.rst,
    {
        &self.rst
    }

    /// Reads memory at `addr`: one byte, or two with the Short flag, high
    /// byte first.  A two-byte read at the last address takes its second byte
    /// from address 0.  Never fails.
    pub fn peek(&self, addr: usize, mode: InstructionMode) -> (r: ExecutionResult<u16>)
        requires
            addr < 65536,
        ensures
            r == Ok::<u16, UxnError>(self@.read(addr as int, mode.short())),
    {
        if mode.is_short() {
            let hi = self.ram[addr];
            let lo = self.ram[(addr + 1) % 65536];
            proof {
                lemma_join(hi, lo);
            }
            Ok((hi as u16) << 8 | lo as u16)
        } else {
            Ok(self.ram[addr] as u16)
        }
    }

    /// Writes `value` to memory at `addr`: its low byte, or with the Short
    /// flag both bytes, high byte first.  A two-byte write at the last
    /// address puts its second byte at address 0.  Never fails.
    pub fn poke(&mut self, addr: usize, value: u16, mode: InstructionMode) -> (r: ExecutionResult<
        (),
    >)
        requires
            addr < 65536,
        ensures
            r == Ok::<(), UxnError>(()),
            final(self)@ == old(self)@.write(addr as int, value, mode.short()),
            final(self).devices() == old(self).devices(),
    {
        proof {
            lemma_split(value);
        }
        if mode.is_short() {
            self.ram[addr] = (value >> 8) as u8;
            self.ram[(addr + 1) % 65536] = (value & 0xff) as u8;
        } else {
            self.ram[addr] = value as u8;
        }
        Ok(())
    }

    /// The stack that `mode` selects.
    fn get_stack(&mut self, mode: InstructionMode) -> (s: &mut Stack)
        ensures
            s@ == old(self)@.stack(mode.ret()),
            final(self)@ == old(self)@.with_stack(mode.ret(), final(s)@),
            final(self).devices() == old(self).devices(),
    {
        if mode.is_return() {
            &mut self.rst
        } else {
            &mut self.wst
        }
    }

    /// Pops one byte from the stack that `mode` selects, through its shadow
    /// pointer.
    pub fn kpop8(&mut self, mode: InstructionMode) -> (r: ExecutionResult<u16>)
        ensures
            (final(self)@, r) == old(self)@.kpop8(mode),
            final(self).devices() == old(self).devices(),
    {
        let s = self.get_stack(mode);
        s.kpop8()
    }

    /// Pops two bytes from the stack that `mode` selects, through its shadow
    /// pointer.
    pub fn kpop16(&mut self, mode: InstructionMode) -> (r: ExecutionResult<u16>)
        ensures
            (final(self)@, r) == old(self)@.kpop16(mode),
            final(self).devices() == old(self).devices(),
    {
        let s = self.get_stack(mode);
        s.kpop16()
    }

    /// Pops one byte from the stack that `mode` selects, through its live
    /// pointer.  On an empty stack it fails with `StackUnderflow` and leaves
    /// the pointer at 0.
    pub fn pop8(&mut self, mode: InstructionMode) -> (r: ExecutionResult<u16>)
        ensures
            (final(self)@, r) == old(self)@.pop8(mode),
            final(self).devices() == old(self).devices(),
            old(self)@.stack(mode.ret()).ptr == 0 ==> r == Err::<u16, UxnError>(
                UxnError::StackUnderflow,
            ) && final(self)@ == old(self)@,
    {
        let s = self.get_stack(mode);
        s.pop8()
    }

    /// Pops two bytes from the stack that `mode` selects, through its live
    /// pointer.  With less than two bytes on the stack it fails with
    /// `StackUnderflow` and leaves the pointer where it was.
    pub fn pop16(&mut self, mode: InstructionMode) -> (r: ExecutionResult<u16>)
        ensures
            (final(self)@, r) == old(self)@.pop16(mode),
            final(self).devices() == old(self).devices(),
            old(self)@.stack(mode.ret()).ptr <= 1 ==> r == Err::<u16, UxnError>(
                UxnError::StackUnderflow,
            ) && final(self)@ == old(self)@,
    {
        let s = self.get_stack(mode);
        s.pop16()
    }

    /// Pops as `mode` says: from the stack that the Return flag selects, one
    /// byte or with the Short flag two, through the live pointer or with the
    /// Keep flag through the shadow pointer.
    pub fn pop(&mut self, mode: InstructionMode) -> (r: ExecutionResult<u16>)
        ensures
            (final(self)@, r) == old(self)@.pop(mode),
            final(self).devices() == old(self).devices(),
    {
        if mode.is_keep() {
            if mode.is_short() {
                self.kpop16(mode)
            } else {
                self.kpop8(mode)
            }
        } else {
            if mode.is_short() {
                self.pop16(mode)
            } else {
                self.pop8(mode)
            }
        }
    }

    /// Pushes the low byte of `v` on the stack that `mode` selects, through
    /// its live pointer.
    pub fn push8(&mut self, v: u16, mode: InstructionMode) -> (r: ExecutionResult<()>)
        ensures
            (final(self)@, r) == old(self)@.push8(v, mode),
            final(self).devices() == old(self).devices(),
    {
        let s = self.get_stack(mode);
        s.push8(v)
    }

    /// Pushes `v`, high byte first, on the stack that `mode` selects, through
    /// its live pointer.
    pub fn push16(&mut self, v: u16, mode: InstructionMode) -> (r: ExecutionResult<()>)
        ensures
            (final(self)@, r) == old(self)@.push16(v, mode),
            final(self).devices() == old(self).devices(),
    {
        let s = self.get_stack(mode);
        s.push16(v)
    }

    /// Pushes the low byte of `v` on the stack that `mode` selects, through
    /// its shadow pointer.
    pub fn kpush8(&mut self, v: u16, mode: InstructionMode) -> (r: ExecutionResult<()>)
        ensures
            (final(self)@, r) == old(self)@.kpush8(v, mode),
            final(self).devices() == old(self).devices(),
    {
        let s = self.get_stack(mode);
        s.kpush8(v)
    }

    /// Pushes `v`, high byte first, on the stack that `mode` selects, through
    /// its shadow pointer.
    pub fn kpush16(&mut self, v: u16, mode: InstructionMode) -> (r: ExecutionResult<()>)
        ensures
            (final(self)@, r) == old(self)@.kpush16(v, mode),
            final(self).devices() == old(self).devices(),
    {
        let s = self.get_stack(mode);
        s.kpush16(v)
    }

    /// Pushes as `mode` says: on the stack that the Return flag selects, one
    /// byte or with the Short flag two, through the live pointer or with the
    /// Keep flag through the shadow pointer.
    pub fn push(&mut self, v: u16, mode: InstructionMode) -> (r: ExecutionResult<()>)
        ensures
            (final(self)@, r) == old(self)@.push(v, mode),
            final(self).devices() == old(self).devices(),
    {
        if mode.is_keep() {
            if mode.is_short() {
                self.kpush16(v, mode)
            } else {
                self.kpush8(v, mode)
            }
        } else {
            if mode.is_short() {
                self.push16(v, mode)
            } else {
                self.push8(v, mode)
            }
        }
    }

    /// Jumps: with the Short flag to the address `addr`; without it by the
    /// low byte of `addr`, read as a signed offset from the program counter,
    /// wrapping at the end of memory.  Never fails.
    pub fn warp(&mut self, addr: u16, mode: InstructionMode) -> (r: ExecutionResult<()>)
        ensures
            r == Ok::<(), UxnError>(()),
            final(self)@ == old(self)@.jump(addr, mode.short()),
            final(self).devices() == old(self).devices(),
    {
        if mode.is_short() {
            self.pc = addr;
        } else {
            let offset = addr % 256;
            if offset < 128 {
                self.pc = self.pc.wrapping_add(offset);
            } else {
                self.pc = self.pc.wrapping_sub(256 - offset);
            }
        }
        Ok(())
    }

    /// The value that `pop` would read under `mode`, with no pointer moved.
    pub fn top(&self, mode: InstructionMode) -> (r: ExecutionResult<u16>)
        ensures
            r == self@.top(mode),
    {
        if mode.is_return() {
            self.rst.top(mode.is_keep(), mode.is_short())
        } else {
            self.wst.top(mode.is_keep(), mode.is_short())
        }
    }

    /// Sets the shadow pointer of each stack to its live pointer, as every
    /// instruction with the Keep flag does before anything else.
    pub fn snapshot(&mut self)
        ensures
            final(self)@ == old(self)@.snapshot(),
            final(self).devices() == old(self).devices(),
    {
        self.wst.snapshot();
        self.rst.snapshot();
    }

    /// Reads the byte at the program counter and moves the counter past it,
    /// to address 0 from the last address.
    pub fn fetch(&mut self) -> (byte: u8)
        ensures
            byte == old(self)@.ram[old(self)@.pc as int],
            final(self)@ == old(self)@.advance(1),
            final(self).devices() == old(self).devices(),
    {
        let byte = self.ram[self.pc as usize];
        self.pc = self.pc.wrapping_add(1);
        byte
    }

    /// Moves the program counter forward by `n`, wrapping at the end of
    /// memory.
    pub fn skip(&mut self, n: u16)
        ensures
            final(self)@ == old(self)@.advance(n as int),
            final(self).devices() == old(self).devices(),
    {
        self.pc = self.pc.wrapping_add(n);
    }

    /// Sets the program counter.
    pub fn set_pc(&mut self, pc: InstructionPointer)
        ensures
            final(self)@ == (MachineState { pc, ..old(self)@ }),
            final(self).devices() == old(self).devices(),
    {
        self.pc = pc;
    }

    /// Reads a port of the device in `slot`, one of the slots 1 to 15.  Only
    /// that device is called.  An empty slot refuses the read.
    pub fn read_device(&self, slot: usize, port: PortAddress) -> (r: ExecutionResult<u8>)
        requires
            1 <= slot < 16,
        ensures
            self.devices()[slot as int] is None ==> r == Err::<u8, UxnError>(
                UxnError::DeviceError,
            ),
    {
        match &self.devices[slot] {
            Some(device) => device.dei(port),
            None => Err(UxnError::DeviceError),
        }
    }

    /// Writes `value` to a port of the device in `slot`, one of the slots 1
    /// to 15.  Only that device is called: the machine itself and the devices
    /// in all other slots stay as they are.  An empty slot refuses the write
    /// and stays empty.
    pub fn write_device(&mut self, slot: usize, port: PortAddress, value: u8) -> (r:
        ExecutionResult<()>)
        requires
            1 <= slot < 16,
        ensures
            final(self)@ == old(self)@,
            final(self).devices().len() == 16,
            forall|other: int|
                0 <= other < 16 && other != slot ==> final(self).devices()[other] == old(
                    self,
                ).devices()[other],
            old(self).devices()[slot as int] is None ==> r == Err::<(), UxnError>(
                UxnError::DeviceError,
            ) && final(self).devices() == old(self).devices(),
            old(self).devices()[slot as int] is Some ==> final(self).devices()[slot as int] is Some,
    {
        match &mut self.devices[slot] {
            Some(device) => device.deo(port, value),
            None => Err(UxnError::DeviceError),
        }
    }
}

/// The system device, slot 0: the machine itself.
impl Device for Uxn {
    /// Reads a port of the system device: `0x02` is the depth of the working
    /// stack, `0x03` that of the return stack; every other port is refused.
    fn dei(&self, port: PortAddress) -> (r: ExecutionResult<u8>)
        ensures
            r == system_dei(self@, port),
    {
        match port {
            0x02 => Ok(self.wst.ptr),
            0x03 => Ok(self.rst.ptr),
            _ => Err(UxnError::DeviceError),
        }
    }

    /// Writes to a port of the system device: `0x02` sets the depth of the
    /// working stack, `0x03` that of the return stack; `0x0f` sets the halt
    /// flag if the value is not zero and clears it if it is; `0x0e`, the
    /// debug port, and the ports `0x08` to `0x0d` take the value and do
    /// nothing; every other port is refused.
    fn deo(&mut self, port: PortAddress, value: u8) -> (r: ExecutionResult<()>)
        ensures
            (final(self)@, r) == system_deo(old(self)@, port, value),
            final(self).devices() == old(self).devices(),
    {
        match port {
            0x02 => self.wst.ptr = value,
            0x03 => self.rst.ptr = value,
            0x0e => self.print(),
            0x0f => self.is_halted = value != 0x00,
            0x08..=0x0d => {},
            _ => return Err(UxnError::DeviceError),
        }
        Ok(())
    }
}

impl Uxn {
    /// The hook of the debug port.  The machine has no output of its own: a
    /// host that wants a trace reads the stacks and prints them.
    pub fn print(&self) {
    }
}

} // verus!
