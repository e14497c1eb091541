//! The thirty-two operations and their encoding in the low five bits of an
//! instruction byte.
use vstd::prelude::*;
use crate::error::UxnError;

verus! {

/// One of the thirty-two operations of the instruction set, in the order of
/// their codes: `LIT` is `0x00`, `SFT` is `0x1f`.
#[allow(clippy::upper_case_acronyms)]
#[derive(Clone, Copy, Debug, PartialEq, Eq, Hash, Structural)]
pub enum Opcode {
    LIT,
    INC,
    POP,
    NIP,
    SWP,
    ROT,
    DUP,
    OVR,
    EQU,
    NEQ,
    GTH,
    LTH,
    JMP,
    JCN,
    JSR,
    STH,
    LDZ,
    STZ,
    LDR,
    STR,
    LDA,
    STA,
    DEI,
    DEO,
    ADD,
    SUB,
    MUL,
    DIV,
    AND,
    ORA,
    EOR,
    SFT,
}

/// The instruction byte that stops an evaluation: `LIT` with no mode flag.
pub const BREAK: u8 = 0x00;

/// The low five bits of an instruction byte.
pub open spec fn low_five(byte: u8) -> u8 {
    (byte % 32) as u8
}

impl Opcode {
    /// The code of the operation, from `0x00` to `0x1f`.
    pub open spec fn code_spec(self) -> u8 {
        match self {
            Opcode::LIT => 0x00,
            Opcode::INC => 0x01,
            Opcode::POP => 0x02,
            Opcode::NIP => 0x03,
            Opcode::SWP => 0x04,
            Opcode::ROT => 0x05,
            Opcode::DUP => 0x06,
            Opcode::OVR => 0x07,
            Opcode::EQU => 0x08,
            Opcode::NEQ => 0x09,
            Opcode::GTH => 0x0a,
            Opcode::LTH => 0x0b,
            Opcode::JMP => 0x0c,
            Opcode::JCN => 0x0d,
            Opcode::JSR => 0x0e,
            Opcode::STH => 0x0f,
            Opcode::LDZ => 0x10,
            Opcode::STZ => 0x11,
            Opcode::LDR => 0x12,
            Opcode::STR => 0x13,
            Opcode::LDA => 0x14,
            Opcode::STA => 0x15,
            Opcode::DEI => 0x16,
            Opcode::DEO => 0x17,
            Opcode::ADD => 0x18,
            Opcode::SUB => 0x19,
            Opcode::MUL => 0x1a,
            Opcode::DIV => 0x1b,
            Opcode::AND => 0x1c,
            Opcode::ORA => 0x1d,
            Opcode::EOR => 0x1e,
            Opcode::SFT => 0x1f,
        }
    }

    /// The operation with the given code; for a code above `0x1f`, which no
    /// operation has, `SFT`.
    pub open spec fn of_code(code: u8) -> Opcode {
        if code == 0x00 {
            Opcode::LIT
        } else if code == 0x01 {
            Opcode::INC
        } else if code == 0x02 {
            Opcode::POP
        } else if code == 0x03 {
            Opcode::NIP
        } else if code == 0x04 {
            Opcode::SWP
        } else if code == 0x05 {
            Opcode::ROT
        } else if code == 0x06 {
            Opcode::DUP
        } else if code == 0x07 {
            Opcode::OVR
        } else if code == 0x08 {
            Opcode::EQU
        } else if code == 0x09 {
            Opcode::NEQ
        } else if code == 0x0a {
            Opcode::GTH
        } else if code == 0x0b {
            Opcode::LTH
        } else if code == 0x0c {
            Opcode::JMP
        } else if code == 0x0d {
            Opcode::JCN
        } else if code == 0x0e {
            Opcode::JSR
        } else if code == 0x0f {
            Opcode::STH
        } else if code == 0x10 {
            Opcode::LDZ
        } else if code == 0x11 {
            Opcode::STZ
        } else if code == 0x12 {
            Opcode::LDR
        } else if code == 0x13 {
            Opcode::STR
        } else if code == 0x14 {
            Opcode::LDA
        } else if code == 0x15 {
            Opcode::STA
        } else if code == 0x16 {
            Opcode::DEI
        } else if code == 0x17 {
            Opcode::DEO
        } else if code == 0x18 {
            Opcode::ADD
        } else if code == 0x19 {
            Opcode::SUB
        } else if code == 0x1a {
            Opcode::MUL
        } else if code == 0x1b {
            Opcode::DIV
        } else if code == 0x1c {
            Opcode::AND
        } else if code == 0x1d {
            Opcode::ORA
        } else if code == 0x1e {
            Opcode::EOR
        } else {
            Opcode::SFT
        }
    }

    /// The operation that an instruction byte names: the one whose code is the
    /// byte's low five bits.
    pub open spec fn of_instruction(byte: u8) -> Opcode {
        Self::of_code(low_five(byte))
    }

    /// Every operation is the one its code names.
    pub proof fn lemma_code_round_trip(self)
        ensures
            self.code_spec() <= 0x1f,
            Self::of_code(self.code_spec()) == self,
    {
    }

    /// Every code up to `0x1f` is the code of the operation it names.
    pub proof fn lemma_of_code_round_trip(code: u8)
        requires
            code <= 0x1f,
        ensures
            Self::of_code(code).code_spec() == code,
    {
    }

    /// The code of the operation, from `0x00` to `0x1f`.
    pub fn code(self) -> (c: u8)
        ensures
            c == self.code_spec(),
            c <= 0x1f,
    {
        match self {
            Opcode::LIT => 0x00,
            Opcode::INC => 0x01,
            Opcode::POP => 0x02,
            Opcode::NIP => 0x03,
            Opcode::SWP => 0x04,
            Opcode::ROT => 0x05,
            Opcode::DUP => 0x06,
            Opcode::OVR => 0x07,
            Opcode::EQU => 0x08,
            Opcode::NEQ => 0x09,
            Opcode::GTH => 0x0a,
            Opcode::LTH => 0x0b,
            Opcode::JMP => 0x0c,
            Opcode::JCN => 0x0d,
            Opcode::JSR => 0x0e,
            Opcode::STH => 0x0f,
            Opcode::LDZ => 0x10,
            Opcode::STZ => 0x11,
            Opcode::LDR => 0x12,
            Opcode::STR => 0x13,
            Opcode::LDA => 0x14,
            Opcode::STA => 0x15,
            Opcode::DEI => 0x16,
            Opcode::DEO => 0x17,
            Opcode::ADD => 0x18,
            Opcode::SUB => 0x19,
            Opcode::MUL => 0x1a,
            Opcode::DIV => 0x1b,
            Opcode::AND => 0x1c,
            Opcode::ORA => 0x1d,
            Opcode::EOR => 0x1e,
            Opcode::SFT => 0x1f,
        }
    }

    /// Decodes a code.  A code above `0x1f` names no operation and is refused
    /// with `UnknownOpcode`; every other code gives its operation.
    pub fn decode(code: u8) -> (r: Result<Opcode, UxnError>)
        ensures
            code <= 0x1f ==> r == Ok::<Opcode, UxnError>(Self::of_code(code)),
            code > 0x1f ==> r == Err::<Opcode, UxnError>(UxnError::UnknownOpcode),
    {
        match code {
            0x00 => Ok(Opcode::LIT),
            0x01 => Ok(Opcode::INC),
            0x02 => Ok(Opcode::POP),
            0x03 => Ok(Opcode::NIP),
            0x04 => Ok(Opcode::SWP),
            0x05 => Ok(Opcode::ROT),
            0x06 => Ok(Opcode::DUP),
            0x07 => Ok(Opcode::OVR),
            0x08 => Ok(Opcode::EQU),
            0x09 => Ok(Opcode::NEQ),
            0x0a => Ok(Opcode::GTH),
            0x0b => Ok(Opcode::LTH),
            0x0c => Ok(Opcode::JMP),
            0x0d => Ok(Opcode::JCN),
            0x0e => Ok(Opcode::JSR),
            0x0f => Ok(Opcode::STH),
            0x10 => Ok(Opcode::LDZ),
            0x11 => Ok(Opcode::STZ),
            0x12 => Ok(Opcode::LDR),
            0x13 => Ok(Opcode::STR),
            0x14 => Ok(Opcode::LDA),
            0x15 => Ok(Opcode::STA),
            0x16 => Ok(Opcode::DEI),
            0x17 => Ok(Opcode::DEO),
            0x18 => Ok(Opcode::ADD),
            0x19 => Ok(Opcode::SUB),
            0x1a => Ok(Opcode::MUL),
            0x1b => Ok(Opcode::DIV),
            0x1c => Ok(Opcode::AND),
            0x1d => Ok(Opcode::ORA),
            0x1e => Ok(Opcode::EOR),
            0x1f => Ok(Opcode::SFT),
            _ => Err(UxnError::UnknownOpcode),
        }
    }

    /// The operation that an instruction byte names, whatever its mode bits.
    pub fn from_instruction(byte: u8) -> (op: Opcode)
        ensures
            op == Self::of_instruction(byte),
    {
        assert(byte & 0x1f == byte % 32) by (bit_vector);
        match Self::decode(byte & 0x1f) {
            Ok(op) => op,
            Err(_) => Opcode::SFT,
        }
    }

    /// The instruction byte of this operation under `mode_bits`: the code in
    /// the low five bits, the flags of `mode_bits` in the high three.
    pub fn encode(self, mode_bits: u8) -> (byte: u8)
        ensures
            Self::of_instruction(byte) == self,
            byte == self.code_spec() + (mode_bits / 32) * 32,
    {
        let c = self.code();
        let m = mode_bits & 0xe0;
        assert(c <= 0x1f ==> ((c | (mode_bits & 0xe0)) == c + (mode_bits / 32) * 32 && (c | (mode_bits
            & 0xe0)) % 32 == c)) by (bit_vector);
        c | m
    }
}

impl vstd::std_specs::convert::FromSpecImpl<u8> for Opcode {
    open spec fn obeys_from_spec() -> bool {
        true
    }

    open spec fn from_spec(v: u8) -> Self {
        Opcode::of_instruction(v)
    }
}

impl core::convert::From<u8> for Opcode {
    /// The operation that the byte names: the one whose code is the byte's low
    /// five bits.
    fn from(v: u8) -> (op: Self) {
        Opcode::from_instruction(v)
    }
}

} // verus!
