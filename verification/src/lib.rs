//! A virtual CPU for a minimal stack-based instruction set.
//!
//! The machine addresses 64 KiB of memory, keeps a working stack and a return
//! stack of 256 bytes each, and talks to sixteen device slots through
//! byte-wide ports.  Every instruction is one byte: an opcode in the low five
//! bits and three mode flags above it.
//!
//! The modules, leaves first:
//! - [`error`]: the faults that stop an evaluation;
//! - [`mode`]: the three mode flags;
//! - [`opcode`]: the thirty-two operations and their encoding;
//! - [`state`]: the mathematical model of the machine, its stacks and its
//!   memory;
//! - [`device`]: the device contract, and the state of two displays;
//! - [`semantics`]: what each instruction does to the model, and what a run
//!   of instructions does;
//! - [`uxn`]: the executable machine, its stacks, its memory and its system
//!   device;
//! - [`interpreter`]: the instructions of the executable machine and the
//!   loop that runs them;
//! - [`laws`]: theorems about the instruction set;
//! - [`assembler`]: the textual notation for instructions, labels and
//!   addresses.
pub mod error;
pub mod mode;
pub mod opcode;
pub mod state;
pub mod device;
pub mod semantics;
pub mod uxn;
pub mod interpreter;
pub mod laws;
pub mod assembler;
