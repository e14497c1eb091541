use uxn::error::UxnError;
use uxn::mode::{InstructionMode, KEEP_BIT, RETURN_BIT, SHORT_BIT};
use uxn::opcode::{Opcode, BREAK};

const ALL: [Opcode; 32] = [
    Opcode::LIT,
    Opcode::INC,
    Opcode::POP,
    Opcode::NIP,
    Opcode::SWP,
    Opcode::ROT,
    Opcode::DUP,
    Opcode::OVR,
    Opcode::EQU,
    Opcode::NEQ,
    Opcode::GTH,
    Opcode::LTH,
    Opcode::JMP,
    Opcode::JCN,
    Opcode::JSR,
    Opcode::STH,
    Opcode::LDZ,
    Opcode::STZ,
    Opcode::LDR,
    Opcode::STR,
    Opcode::LDA,
    Opcode::STA,
    Opcode::DEI,
    Opcode::DEO,
    Opcode::ADD,
    Opcode::SUB,
    Opcode::MUL,
    Opcode::DIV,
    Opcode::AND,
    Opcode::ORA,
    Opcode::EOR,
    Opcode::SFT,
];

#[test]
fn codes_run_from_lit_to_sft() {
    for (i, op) in ALL.iter().enumerate() {
        assert_eq!(op.code() as usize, i);
        assert_eq!(*op as usize, i);
        assert_eq!(Opcode::decode(i as u8), Ok(*op));
    }
    assert_eq!(Opcode::LIT.code(), 0x00);
    assert_eq!(Opcode::JMP.code(), 0x0c);
    assert_eq!(Opcode::DEO.code(), 0x17);
    assert_eq!(Opcode::SFT.code(), 0x1f);
    assert_eq!(BREAK, 0x00);
}

#[test]
fn decode_refuses_codes_above_the_table() {
    assert_eq!(Opcode::decode(0x1f), Ok(Opcode::SFT));
    assert_eq!(Opcode::decode(0x20), Err(UxnError::UnknownOpcode));
    assert_eq!(Opcode::decode(0x80), Err(UxnError::UnknownOpcode));
    assert_eq!(Opcode::decode(0xff), Err(UxnError::UnknownOpcode));
}

#[test]
fn an_instruction_byte_names_the_opcode_of_its_low_five_bits() {
    for byte in 0..=255u8 {
        let op = Opcode::from_instruction(byte);
        assert_eq!(op, ALL[(byte & 0x1f) as usize]);
        assert_eq!(Opcode::from(byte), op);
    }
    assert_eq!(Opcode::from_instruction(0x98), Opcode::ADD);
    assert_eq!(Opcode::from_instruction(0x2c), Opcode::JMP);
}

#[test]
fn encode_puts_the_flags_above_the_code() {
    assert_eq!(Opcode::ADD.encode(0), 0x18);
    assert_eq!(Opcode::ADD.encode(KEEP_BIT), 0x98);
    assert_eq!(Opcode::JMP.encode(SHORT_BIT), 0x2c);
    assert_eq!(Opcode::STH.encode(RETURN_BIT), 0x4f);
    assert_eq!(Opcode::LIT.encode(0xff), 0xe0);
    // the low five bits of the mode are no flags
    assert_eq!(Opcode::INC.encode(0x1f), 0x01);
}

#[test]
fn flags_have_their_bits() {
    assert_eq!(InstructionMode::none().bits(), 0x00);
    assert_eq!(InstructionMode::short_flag().bits(), 0x20);
    assert_eq!(InstructionMode::return_flag().bits(), 0x40);
    assert_eq!(InstructionMode::keep_flag().bits(), 0x80);
    assert_eq!(SHORT_BIT, 0x20);
    assert_eq!(RETURN_BIT, 0x40);
    assert_eq!(KEEP_BIT, 0x80);
    assert_eq!(u8::from(InstructionMode::keep_flag()), 0x80);
    assert_eq!(InstructionMode::from(0x80u8), InstructionMode::keep_flag());
    assert_eq!(InstructionMode::from_bits(0x60).bits(), 0x60);
}

#[test]
fn flag_predicates_read_the_high_three_bits() {
    for byte in 0..=255u8 {
        let mode = InstructionMode::from_bits(byte);
        assert_eq!(mode.is_short(), byte & 0x20 != 0);
        assert_eq!(mode.is_return(), byte & 0x40 != 0);
        assert_eq!(mode.is_keep(), byte & 0x80 != 0);
        assert_eq!(mode.contains(InstructionMode::short_flag()), byte & 0x20 != 0);
        assert!(mode.contains(InstructionMode::none()));
    }
}

#[test]
fn union_of_flags() {
    let keep = InstructionMode::keep_flag();
    let short = InstructionMode::short_flag();
    let ret = InstructionMode::return_flag();
    assert_eq!((keep | short).bits(), 0xa0);
    assert_eq!(keep.or(short), keep | short);
    assert_eq!((keep | short | ret).bits(), 0xe0);
    assert_eq!(keep | keep, keep);
    assert_eq!(keep | InstructionMode::none(), keep);
    assert!((keep | short).contains(keep));
    assert!(!(keep | short).contains(ret));
    assert!(!keep.contains(keep | short));
    assert_eq!(InstructionMode::from_flags(true, true, false), keep | short);
    assert_eq!(InstructionMode::from_flags(false, false, true), ret);
    assert_eq!(InstructionMode::from_flags(false, false, false), InstructionMode::none());
}

#[test]
fn with_short_and_opposite() {
    let mode = InstructionMode::from_bits(0xd8);
    assert_eq!(mode.with_short(true).bits(), 0xf8);
    assert_eq!(mode.with_short(false).bits(), 0xd8);
    assert_eq!(InstructionMode::from_bits(0xff).with_short(false).bits(), 0xdf);
    assert_eq!(mode.opposite(), InstructionMode::none());
    assert_eq!(InstructionMode::keep_flag().opposite(), InstructionMode::return_flag());
    assert_eq!(InstructionMode::short_flag().opposite(), InstructionMode::return_flag());
}
