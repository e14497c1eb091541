//! The mathematical model of the machine.
//!
//! A [`MachineState`] is what a machine holds, as plain values; the functions
//! of this module say what each stack access and each memory access makes of
//! such a state.  The executable machine is proved to do exactly this.
//!
//! An operation that can fail returns the state it leaves behind together
//! with its result: a failed instruction leaves the machine as it was at the
//! point of failure, with the pops and pushes before that point done.
use vstd::prelude::*;
use crate::error::UxnError;
use crate::mode::InstructionMode;

verus! {

/// The two-byte value with high byte `hi` and low byte `lo`.
pub open spec fn join(hi: u8, lo: u8) -> u16 {
    (hi as int * 256 + lo as int) as u16
}

/// The high byte of a two-byte value.
pub open spec fn high(v: u16) -> u8 {
    (v / 256) as u8
}

/// The low byte of a two-byte value.
pub open spec fn low(v: u16) -> u8 {
    (v % 256) as u8
}

/// The address `offset` bytes after `addr`, wrapping at the end of memory.
pub open spec fn wrap_address(addr: int, offset: int) -> int {
    (addr + offset) % 65536
}

/// A one-byte offset read as a signed number, from -128 to 127.
pub open spec fn signed_offset(a: u16) -> int {
    let b = a % 256;
    if b < 128 {
        b as int
    } else {
        b - 256
    }
}

/// One of the two stacks: 256 bytes, the live pointer and the shadow pointer.
///
/// Either pointer is the index of the first free byte above the values it
/// sees.  The live pointer is the stack's depth.  The shadow pointer is set to
/// the live pointer when an instruction with the Keep flag begins, and that
/// instruction then moves the shadow pointer only.
pub struct StackState {
    pub ptr: u8,
    pub kptr: u8,
    pub data: Seq<u8>,
}

impl StackState {
    /// A stack holds exactly 256 bytes.
    pub open spec fn wf(self) -> bool {
        self.data.len() == 256
    }

    /// The pointer that accesses go through: the shadow pointer under Keep,
    /// the live pointer otherwise.
    pub open spec fn cursor(self, keep: bool) -> u8 {
        if keep {
            self.kptr
        } else {
            self.ptr
        }
    }

    /// The stack with that pointer moved to `c`.
    pub open spec fn set_cursor(self, keep: bool, c: u8) -> StackState {
        if keep {
            StackState { kptr: c, ..self }
        } else {
            StackState { ptr: c, ..self }
        }
    }

    /// The stack as an instruction with the Keep flag finds it: the shadow
    /// pointer set to the live pointer.
    pub open spec fn snapshot(self) -> StackState {
        StackState { kptr: self.ptr, ..self }
    }

    /// Pops one byte: fails on an empty stack, else moves the pointer down by
    /// one and reads the byte it then points at.
    pub open spec fn pop8(self, keep: bool) -> (StackState, Result<u16, UxnError>) {
        let c = self.cursor(keep);
        if c == 0 {
            (self, Err(UxnError::StackUnderflow))
        } else {
            (self.set_cursor(keep, (c - 1) as u8), Ok(self.data[c - 1] as u16))
        }
    }

    /// Pops two bytes: fails with less than two bytes, else moves the pointer
    /// down by two and reads the value there, high byte first.
    pub open spec fn pop16(self, keep: bool) -> (StackState, Result<u16, UxnError>) {
        let c = self.cursor(keep);
        if c <= 1 {
            (self, Err(UxnError::StackUnderflow))
        } else {
            (self.set_cursor(keep, (c - 2) as u8), Ok(join(self.data[c - 2], self.data[c - 1])))
        }
    }

    /// Pushes the low byte of `v`: fails when the pointer is at 255, else
    /// writes the byte at the pointer and moves it up by one.
    pub open spec fn push8(self, keep: bool, v: u16) -> (StackState, Result<(), UxnError>) {
        let c = self.cursor(keep);
        if c >= 255 {
            (self, Err(UxnError::StackOverflow))
        } else {
            (
                StackState { data: self.data.update(c as int, low(v)), ..self }.set_cursor(
                    keep,
                    (c + 1) as u8,
                ),
                Ok(()),
            )
        }
    }

    /// Pushes `v`, high byte first: fails when the pointer is at 254 or above,
    /// else writes both bytes at the pointer and moves it up by two.
    pub open spec fn push16(self, keep: bool, v: u16) -> (StackState, Result<(), UxnError>) {
        let c = self.cursor(keep);
        if c >= 254 {
            (self, Err(UxnError::StackOverflow))
        } else {
            (
                StackState {
                    data: self.data.update(c as int, high(v)).update(c + 1, low(v)),
                    ..self
                }.set_cursor(keep, (c + 2) as u8),
                Ok(()),
            )
        }
    }

    /// Pops a value of the width that `short` selects.
    pub open spec fn pop(self, keep: bool, short: bool) -> (StackState, Result<u16, UxnError>) {
        if short {
            self.pop16(keep)
        } else {
            self.pop8(keep)
        }
    }

    /// Pushes a value of the width that `short` selects.
    pub open spec fn push(self, keep: bool, short: bool, v: u16) -> (
        StackState,
        Result<(), UxnError>,
    ) {
        if short {
            self.push16(keep, v)
        } else {
            self.push8(keep, v)
        }
    }

    /// The value that a pop of the width that `short` selects would read,
    /// without moving a pointer.
    pub open spec fn top(self, keep: bool, short: bool) -> Result<u16, UxnError> {
        self.pop(keep, short).1
    }
}

/// What a machine holds: memory, the program counter, the working stack, the
/// return stack and the halt flag.
pub struct MachineState {
    pub ram: Seq<u8>,
    pub pc: u16,
    pub wst: StackState,
    pub rst: StackState,
    pub halted: bool,
}

impl MachineState {
    /// Memory holds exactly 65536 bytes, each stack 256.
    pub open spec fn wf(self) -> bool {
        &&& self.ram.len() == 65536
        &&& self.wst.wf()
        &&& self.rst.wf()
    }

    /// The stack that the Return flag selects: the return stack when it is
    /// set, the working stack when it is not.
    pub open spec fn stack(self, ret: bool) -> StackState {
        if ret {
            self.rst
        } else {
            self.wst
        }
    }

    /// The state with that stack replaced.
    pub open spec fn with_stack(self, ret: bool, stack: StackState) -> MachineState {
        if ret {
            MachineState { rst: stack, ..self }
        } else {
            MachineState { wst: stack, ..self }
        }
    }

    /// The state as an instruction with the Keep flag finds it: on both
    /// stacks the shadow pointer set to the live pointer.
    pub open spec fn snapshot(self) -> MachineState {
        MachineState { wst: self.wst.snapshot(), rst: self.rst.snapshot(), ..self }
    }

    /// Pops one byte from the stack that `mode` selects, through its live
    /// pointer.
    pub open spec fn pop8(self, mode: InstructionMode) -> (MachineState, Result<u16, UxnError>) {
        let (stack, r) = self.stack(mode.ret()).pop8(false);
        (self.with_stack(mode.ret(), stack), r)
    }

    /// Pops two bytes from the stack that `mode` selects, through its live
    /// pointer.
    pub open spec fn pop16(self, mode: InstructionMode) -> (MachineState, Result<u16, UxnError>) {
        let (stack, r) = self.stack(mode.ret()).pop16(false);
        (self.with_stack(mode.ret(), stack), r)
    }

    /// Pops one byte from the stack that `mode` selects, through its shadow
    /// pointer.
    pub open spec fn kpop8(self, mode: InstructionMode) -> (MachineState, Result<u16, UxnError>) {
        let (stack, r) = self.stack(mode.ret()).pop8(true);
        (self.with_stack(mode.ret(), stack), r)
    }

    /// Pops two bytes from the stack that `mode` selects, through its shadow
    /// pointer.
    pub open spec fn kpop16(self, mode: InstructionMode) -> (MachineState, Result<u16, UxnError>) {
        let (stack, r) = self.stack(mode.ret()).pop16(true);
        (self.with_stack(mode.ret(), stack), r)
    }

    /// Pushes one byte on the stack that `mode` selects, through its live
    /// pointer.
    pub open spec fn push8(self, v: u16, mode: InstructionMode) -> (
        MachineState,
        Result<(), UxnError>,
    ) {
        let (stack, r) = self.stack(mode.ret()).push8(false, v);
        (self.with_stack(mode.ret(), stack), r)
    }

    /// Pushes two bytes on the stack that `mode` selects, through its live
    /// pointer.
    pub open spec fn push16(self, v: u16, mode: InstructionMode) -> (
        MachineState,
        Result<(), UxnError>,
    ) {
        let (stack, r) = self.stack(mode.ret()).push16(false, v);
        (self.with_stack(mode.ret(), stack), r)
    }

    /// Pushes one byte on the stack that `mode` selects, through its shadow
    /// pointer.
    pub open spec fn kpush8(self, v: u16, mode: InstructionMode) -> (
        MachineState,
        Result<(), UxnError>,
    ) {
        let (stack, r) = self.stack(mode.ret()).push8(true, v);
        (self.with_stack(mode.ret(), stack), r)
    }

    /// Pushes two bytes on the stack that `mode` selects, through its shadow
    /// pointer.
    pub open spec fn kpush16(self, v: u16, mode: InstructionMode) -> (
        MachineState,
        Result<(), UxnError>,
    ) {
        let (stack, r) = self.stack(mode.ret()).push16(true, v);
        (self.with_stack(mode.ret(), stack), r)
    }

    /// Pops as `mode` says: from the stack that the Return flag selects, a
    /// value of the width that the Short flag selects, through the pointer
    /// that the Keep flag selects.
    pub open spec fn pop(self, mode: InstructionMode) -> (MachineState, Result<u16, UxnError>) {
        let (stack, r) = self.stack(mode.ret()).pop(mode.keep(), mode.short());
        (self.with_stack(mode.ret(), stack), r)
    }

    /// Pushes as `mode` says: on the stack that the Return flag selects, a
    /// value of the width that the Short flag selects, through the pointer
    /// that the Keep flag selects.
    pub open spec fn push(self, v: u16, mode: InstructionMode) -> (
        MachineState,
        Result<(), UxnError>,
    ) {
        let (stack, r) = self.stack(mode.ret()).push(mode.keep(), mode.short(), v);
        (self.with_stack(mode.ret(), stack), r)
    }

    /// Pops one byte whatever the Short flag says, otherwise as `mode` says.
    pub open spec fn pop_byte(self, mode: InstructionMode) -> (
        MachineState,
        Result<u16, UxnError>,
    ) {
        let (stack, r) = self.stack(mode.ret()).pop(mode.keep(), false);
        (self.with_stack(mode.ret(), stack), r)
    }

    /// Pops two bytes whatever the Short flag says, otherwise as `mode` says.
    pub open spec fn pop_short(self, mode: InstructionMode) -> (
        MachineState,
        Result<u16, UxnError>,
    ) {
        let (stack, r) = self.stack(mode.ret()).pop(mode.keep(), true);
        (self.with_stack(mode.ret(), stack), r)
    }

    /// Pushes one byte whatever the Short flag says, otherwise as `mode` says.
    pub open spec fn push_byte(self, v: u16, mode: InstructionMode) -> (
        MachineState,
        Result<(), UxnError>,
    ) {
        let (stack, r) = self.stack(mode.ret()).push(mode.keep(), false, v);
        (self.with_stack(mode.ret(), stack), r)
    }

    /// The value that `pop` would read, with no pointer moved.
    pub open spec fn top(self, mode: InstructionMode) -> Result<u16, UxnError> {
        self.stack(mode.ret()).top(mode.keep(), mode.short())
    }

    /// Pushes on the stack that `mode` does not select, through its live
    /// pointer: two bytes if `short`, else one.
    pub open spec fn push_opposite(self, v: u16, mode: InstructionMode, short: bool) -> (
        MachineState,
        Result<(), UxnError>,
    ) {
        let (stack, r) = self.stack(!mode.ret()).push(false, short, v);
        (self.with_stack(!mode.ret(), stack), r)
    }

    /// The value in memory at `addr`: two bytes if `short`, high byte first,
    /// the second taken from address 0 when the first is the last of memory;
    /// else one byte.
    pub open spec fn read(self, addr: int, short: bool) -> u16 {
        if short {
            join(self.ram[addr], self.ram[wrap_address(addr, 1)])
        } else {
            self.ram[addr] as u16
        }
    }

    /// The state with `v` written to memory at `addr`: two bytes if `short`,
    /// high byte first, the second written to address 0 when the first is the
    /// last of memory; else the low byte of `v`.
    pub open spec fn write(self, addr: int, v: u16, short: bool) -> MachineState {
        if short {
            MachineState {
                ram: self.ram.update(addr, high(v)).update(wrap_address(addr, 1), low(v)),
                ..self
            }
        } else {
            MachineState { ram: self.ram.update(addr, low(v)), ..self }
        }
    }

    /// The state after a jump by `a`: to the address `a` if `short`; else by
    /// the low byte of `a`, read as a signed offset from the program counter,
    /// wrapping at the end of memory.
    pub open spec fn jump(self, a: u16, short: bool) -> MachineState {
        if short {
            MachineState { pc: a, ..self }
        } else {
            MachineState { pc: wrap_address(self.pc as int, signed_offset(a)) as u16, ..self }
        }
    }

    /// The state with the program counter moved forward by `n`, wrapping at
    /// the end of memory.
    pub open spec fn advance(self, n: int) -> MachineState {
        MachineState { pc: wrap_address(self.pc as int, n) as u16, ..self }
    }
}

impl MachineState {
    /// The state of a machine just made: all of memory and both stacks zero,
    /// the program counter and the pointers zero, not halted.
    pub open spec fn initial() -> MachineState {
        MachineState {
            ram: Seq::new(65536, |i: int| 0u8),
            pc: 0,
            wst: StackState { ptr: 0, kptr: 0, data: Seq::new(256, |i: int| 0u8) },
            rst: StackState { ptr: 0, kptr: 0, data: Seq::new(256, |i: int| 0u8) },
            halted: false,
        }
    }

    /// The state after a reset: memory zero, the program counter and all four
    /// stack pointers zero, the halt flag cleared.  The bytes of the stacks
    /// stay; with the pointers at zero none of them is on a stack.
    pub open spec fn boot(self) -> MachineState {
        MachineState {
            ram: Seq::new(65536, |i: int| 0u8),
            pc: 0,
            wst: StackState { ptr: 0, kptr: 0, data: self.wst.data },
            rst: StackState { ptr: 0, kptr: 0, data: self.rst.data },
            halted: false,
        }
    }

    /// The state with `program` copied into memory from `addr` on; the rest
    /// of memory, and everything else, stays.
    pub open spec fn load(self, program: Seq<u8>, addr: int) -> MachineState {
        MachineState {
            ram: Seq::new(
                65536,
                |i: int|
                    if addr <= i < addr + program.len() {
                        program[i - addr]
                    } else {
                        self.ram[i]
                    },
            ),
            ..self
        }
    }
}

} // verus!
