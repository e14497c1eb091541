//! The faults that stop an evaluation.
use vstd::prelude::*;

verus! {

/// Why an instruction, or a whole evaluation, stopped short.
#[derive(Clone, Copy, Debug, PartialEq, Eq, Structural)]
pub enum UxnError {
    /// A pop found fewer bytes on the stack than it needed.
    StackUnderflow,
    /// A push found no room left on the stack.
    StackOverflow,
    /// `DIV` met a zero divisor.
    DivisionByZero,
    /// A byte above `0x1f` was offered as an opcode.
    UnknownOpcode,
    /// A device refused a read or a write.
    DeviceError,
    /// The evaluation used up its cycle budget before reaching a break.
    CycleLimit,
}

/// What the machine's fallible operations return.
pub type ExecutionResult<T> = Result<T, UxnError>;

impl UxnError {
    /// The text that describes the fault.
    pub open spec fn message_spec(self) -> Seq<char> {
        match self {
            UxnError::StackUnderflow => "Stack underflow"@,
            UxnError::StackOverflow => "Stack overflow"@,
            UxnError::DivisionByZero => "Division by zero"@,
            UxnError::UnknownOpcode => "Unknown opcode"@,
            UxnError::DeviceError => "Device error"@,
            UxnError::CycleLimit => "Cycle limit reached"@,
        }
    }

    /// A short description of the fault, fit for a log line.
    pub fn message(&self) -> (text: &'static str)
        ensures
            text@ == self.message_spec(),
    {
        match self {
            UxnError::StackUnderflow => "Stack underflow",
            UxnError::StackOverflow => "Stack overflow",
            UxnError::DivisionByZero => "Division by zero",
            UxnError::UnknownOpcode => "Unknown opcode",
            UxnError::DeviceError => "Device error",
            UxnError::CycleLimit => "Cycle limit reached",
        }
    }
}

} // verus!
