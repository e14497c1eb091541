use uxn::error::UxnError;
use uxn::mode::InstructionMode;
use uxn::opcode::Opcode;
use uxn::uxn::Uxn;

fn none() -> InstructionMode {
    InstructionMode::none()
}

fn short() -> InstructionMode {
    InstructionMode::short_flag()
}

fn keep() -> InstructionMode {
    InstructionMode::keep_flag()
}

fn ret() -> InstructionMode {
    InstructionMode::return_flag()
}

/// A machine with the given bytes on the working stack, the last on top.
fn machine(stack: &[u8]) -> Uxn {
    let mut uxn = Uxn::new();
    for b in stack {
        uxn.push8(*b as u16, none()).unwrap();
    }
    uxn
}

/// The bytes on the working stack, from the bottom.
fn working(uxn: &Uxn) -> Vec<u8> {
    let stack = uxn.working_stack();
    (0..stack.ptr()).map(|i| stack.byte(i)).collect()
}

/// The bytes on the return stack, from the bottom.
fn returning(uxn: &Uxn) -> Vec<u8> {
    let stack = uxn.return_stack();
    (0..stack.ptr()).map(|i| stack.byte(i)).collect()
}

/// Runs one operation on the given working stack and returns the stack.
fn run(op: Opcode, mode: InstructionMode, stack: &[u8]) -> Vec<u8> {
    let mut uxn = machine(stack);
    assert_eq!(uxn.execute(op, mode), Ok(()));
    working(&uxn)
}

#[test]
fn push_push_add() {
    let mut uxn = Uxn::new();
    // LIT2 10 20, ADD, BRK: the two literal bytes, then their sum
    uxn.load_program(&[0x20, 0x10, 0x20, Opcode::ADD as u8, 0x00], 0x100);
    assert_eq!(uxn.eval(0x100), Ok(()));
    assert_eq!(working(&uxn), vec![0x30]);
    assert_eq!(uxn.pc(), 0x105);

    let mut uxn = Uxn::new();
    uxn.push8(0x10, none()).unwrap();
    uxn.push8(0x20, none()).unwrap();
    assert_eq!(uxn.execute(Opcode::ADD, none()), Ok(()));
    assert_eq!(working(&uxn), vec![0x30]);
}

#[test]
fn lit_pushes_the_bytes_behind_it() {
    let mut uxn = Uxn::new();
    uxn.load_program(&[0x20, 0x12, 0x34, 0x40, 0x56, 0x60, 0x78, 0x9a, 0x00], 0x100);
    assert_eq!(uxn.eval(0x100), Ok(()));
    assert_eq!(working(&uxn), vec![0x12, 0x34]);
    assert_eq!(returning(&uxn), vec![0x56, 0x78, 0x9a]);
    assert_eq!(uxn.pc(), 0x109);
}

#[test]
fn lit_with_keep_writes_above_the_stack() {
    let mut uxn = Uxn::new();
    uxn.load_program(&[0x80, 0x77, 0x00], 0x100);
    assert_eq!(uxn.eval(0x100), Ok(()));
    assert_eq!(uxn.working_stack().ptr(), 0);
    assert_eq!(uxn.working_stack().kptr(), 1);
    assert_eq!(uxn.working_stack().byte(0), 0x77);
    assert_eq!(uxn.pc(), 0x103);
}

#[test]
fn lit_on_a_full_stack_does_not_skip_the_literal() {
    let mut uxn = Uxn::new();
    for _ in 0..254 {
        uxn.push8(1, none()).unwrap();
    }
    uxn.load_program(&[0x20, 0x12, 0x34], 0x100);
    assert_eq!(uxn.eval(0x100), Err(UxnError::StackOverflow));
    assert_eq!(uxn.pc(), 0x101);
    assert_eq!(uxn.working_stack().ptr(), 254);
}

#[test]
fn lit2_at_the_last_address_reads_across_the_end() {
    let mut uxn = Uxn::new();
    uxn.load_program(&[0x20, 0xab], 0xfffe);
    uxn.load_program(&[0xcd, 0x00], 0x0000);
    assert_eq!(uxn.eval(0xfffe), Ok(()));
    assert_eq!(working(&uxn), vec![0xab, 0xcd]);
    assert_eq!(uxn.pc(), 0x0002);
}

#[test]
fn inc_wraps() {
    assert_eq!(run(Opcode::INC, none(), &[0x41]), vec![0x42]);
    assert_eq!(run(Opcode::INC, none(), &[0xff]), vec![0x00]);
    assert_eq!(run(Opcode::INC, short(), &[0x00, 0xff]), vec![0x01, 0x00]);
    assert_eq!(run(Opcode::INC, short(), &[0xff, 0xff]), vec![0x00, 0x00]);
}

#[test]
fn stack_shuffles() {
    assert_eq!(run(Opcode::POP, none(), &[1, 2]), vec![1]);
    assert_eq!(run(Opcode::POP, short(), &[1, 2, 3]), vec![1]);
    assert_eq!(run(Opcode::NIP, none(), &[1, 2, 3]), vec![1, 3]);
    assert_eq!(run(Opcode::NIP, short(), &[1, 2, 3, 4]), vec![3, 4]);
    assert_eq!(run(Opcode::SWP, none(), &[1, 2, 3]), vec![1, 3, 2]);
    assert_eq!(run(Opcode::SWP, short(), &[1, 2, 3, 4]), vec![3, 4, 1, 2]);
    assert_eq!(run(Opcode::ROT, none(), &[1, 2, 3]), vec![2, 3, 1]);
    assert_eq!(run(Opcode::ROT, short(), &[1, 2, 3, 4, 5, 6]), vec![3, 4, 5, 6, 1, 2]);
    assert_eq!(run(Opcode::DUP, none(), &[1, 2]), vec![1, 2, 2]);
    assert_eq!(run(Opcode::DUP, short(), &[1, 2]), vec![1, 2, 1, 2]);
    assert_eq!(run(Opcode::OVR, none(), &[1, 2]), vec![1, 2, 1]);
    assert_eq!(run(Opcode::OVR, short(), &[1, 2, 3, 4]), vec![1, 2, 3, 4, 1, 2]);
}

#[test]
fn dup_then_pop_restores_depth_and_top() {
    for mode in [none(), short()] {
        let mut uxn = machine(&[9, 8, 7]);
        for _ in 0..2 {
            assert_eq!(uxn.execute(Opcode::DUP, mode), Ok(()));
            assert_eq!(uxn.execute(Opcode::POP, mode), Ok(()));
            assert_eq!(working(&uxn), vec![9, 8, 7]);
            assert_eq!(uxn.top(mode), if mode.is_short() { Ok(0x0807) } else { Ok(7) });
        }
    }
}

#[test]
fn comparisons_take_the_second_pop_as_the_left_side() {
    // the stack holds b below a
    assert_eq!(run(Opcode::EQU, none(), &[5, 5]), vec![1]);
    assert_eq!(run(Opcode::EQU, none(), &[5, 3]), vec![0]);
    assert_eq!(run(Opcode::NEQ, none(), &[5, 3]), vec![1]);
    assert_eq!(run(Opcode::NEQ, none(), &[5, 5]), vec![0]);
    assert_eq!(run(Opcode::GTH, none(), &[5, 3]), vec![1]);
    assert_eq!(run(Opcode::GTH, none(), &[3, 5]), vec![0]);
    assert_eq!(run(Opcode::GTH, none(), &[5, 5]), vec![0]);
    assert_eq!(run(Opcode::LTH, none(), &[3, 5]), vec![1]);
    assert_eq!(run(Opcode::LTH, none(), &[5, 3]), vec![0]);
    assert_eq!(run(Opcode::LTH, none(), &[5, 5]), vec![0]);
}

#[test]
fn comparisons_of_shorts_push_one_byte() {
    assert_eq!(run(Opcode::GTH, short(), &[9, 0x02, 0x00, 0x01, 0xff]), vec![9, 1]);
    assert_eq!(run(Opcode::LTH, short(), &[9, 0x02, 0x00, 0x01, 0xff]), vec![9, 0]);
    assert_eq!(run(Opcode::EQU, short(), &[0x12, 0x34, 0x12, 0x34]), vec![1]);
    assert_eq!(run(Opcode::NEQ, short(), &[0x12, 0x34, 0x12, 0x35]), vec![1]);
}

#[test]
fn arithmetic_takes_the_second_pop_as_the_left_side() {
    assert_eq!(run(Opcode::ADD, none(), &[0x10, 0x20]), vec![0x30]);
    assert_eq!(run(Opcode::ADD, none(), &[0xf0, 0x20]), vec![0x10]);
    assert_eq!(run(Opcode::SUB, none(), &[5, 3]), vec![2]);
    assert_eq!(run(Opcode::SUB, none(), &[3, 5]), vec![0xfe]);
    assert_eq!(run(Opcode::MUL, none(), &[7, 6]), vec![42]);
    assert_eq!(run(Opcode::MUL, none(), &[0x10, 0x10]), vec![0x00]);
    assert_eq!(run(Opcode::DIV, none(), &[7, 2]), vec![3]);
    assert_eq!(run(Opcode::DIV, none(), &[2, 7]), vec![0]);
    assert_eq!(run(Opcode::AND, none(), &[0x3c, 0x0f]), vec![0x0c]);
    assert_eq!(run(Opcode::ORA, none(), &[0x30, 0x0c]), vec![0x3c]);
    assert_eq!(run(Opcode::EOR, none(), &[0x3c, 0x0f]), vec![0x33]);
}

#[test]
fn arithmetic_of_shorts_wraps_at_sixteen_bits() {
    assert_eq!(run(Opcode::ADD, short(), &[0x12, 0x34, 0x01, 0x01]), vec![0x13, 0x35]);
    assert_eq!(run(Opcode::ADD, short(), &[0xff, 0xff, 0x00, 0x02]), vec![0x00, 0x01]);
    assert_eq!(run(Opcode::SUB, short(), &[0x00, 0x01, 0x00, 0x02]), vec![0xff, 0xff]);
    assert_eq!(run(Opcode::SUB, short(), &[0x12, 0x34, 0x02, 0x04]), vec![0x10, 0x30]);
    assert_eq!(run(Opcode::MUL, short(), &[0x01, 0x00, 0x01, 0x00]), vec![0x00, 0x00]);
    assert_eq!(run(Opcode::MUL, short(), &[0x00, 0x12, 0x00, 0x34]), vec![0x03, 0xa8]);
    assert_eq!(run(Opcode::DIV, short(), &[0x12, 0x34, 0x00, 0x10]), vec![0x01, 0x23]);
    assert_eq!(run(Opcode::AND, short(), &[0x12, 0x34, 0xf0, 0x0f]), vec![0x10, 0x04]);
    assert_eq!(run(Opcode::ORA, short(), &[0x12, 0x34, 0xf0, 0x0f]), vec![0xf2, 0x3f]);
    assert_eq!(run(Opcode::EOR, short(), &[0x12, 0x34, 0xf0, 0x0f]), vec![0xe2, 0x3b]);
}

#[test]
fn division_by_zero_fails_and_keeps_the_pointer() {
    let mut uxn = machine(&[7, 0]);
    assert_eq!(uxn.execute(Opcode::DIV, none()), Err(UxnError::DivisionByZero));
    assert_eq!(working(&uxn), vec![7, 0]);

    // even with nothing below the divisor
    let mut uxn = machine(&[0]);
    assert_eq!(uxn.execute(Opcode::DIV, none()), Err(UxnError::DivisionByZero));
    assert_eq!(working(&uxn), vec![0]);

    let mut uxn = machine(&[0x12, 0x34, 0x00, 0x00]);
    assert_eq!(uxn.execute(Opcode::DIV, short()), Err(UxnError::DivisionByZero));
    assert_eq!(uxn.working_stack().ptr(), 4);

    // a short divisor with a zero low byte is no zero
    let mut uxn = machine(&[0x12, 0x00, 0x01, 0x00]);
    assert_eq!(uxn.execute(Opcode::DIV, short()), Ok(()));
    assert_eq!(working(&uxn), vec![0x00, 0x12]);

    let mut uxn = machine(&[7, 0]);
    uxn.load_program(&[Opcode::DIV as u8, 0x00], 0x100);
    assert_eq!(uxn.eval(0x100), Err(UxnError::DivisionByZero));
    assert_eq!(uxn.working_stack().ptr(), 2);
    assert_eq!(uxn.pc(), 0x101);

    let mut uxn = machine(&[7, 0]);
    assert_eq!(uxn.execute(Opcode::DIV, keep()), Err(UxnError::DivisionByZero));
    assert_eq!(uxn.working_stack().ptr(), 2);
    assert_eq!(uxn.working_stack().kptr(), 2);
}

#[test]
fn division_on_an_empty_stack_underflows() {
    let mut uxn = Uxn::new();
    assert_eq!(uxn.execute(Opcode::DIV, none()), Err(UxnError::StackUnderflow));
    let mut uxn = machine(&[3]);
    assert_eq!(uxn.execute(Opcode::DIV, none()), Err(UxnError::StackUnderflow));
    assert_eq!(uxn.working_stack().ptr(), 0);
}

#[test]
fn shift_moves_left_then_right() {
    // the control byte lies below the value
    assert_eq!(run(Opcode::SFT, none(), &[0x01, 0x34]), vec![0x1a]);
    assert_eq!(run(Opcode::SFT, none(), &[0x10, 0x34]), vec![0x68]);
    assert_eq!(run(Opcode::SFT, none(), &[0x21, 0x81]), vec![0x02]);
    assert_eq!(run(Opcode::SFT, none(), &[0x80, 0xff]), vec![0x00]);
    assert_eq!(run(Opcode::SFT, none(), &[0x0f, 0xff]), vec![0x00]);
    assert_eq!(run(Opcode::SFT, none(), &[0x00, 0xa5]), vec![0xa5]);
    assert_eq!(run(Opcode::SFT, short(), &[0x01, 0x12, 0x34]), vec![0x09, 0x1a]);
    assert_eq!(run(Opcode::SFT, short(), &[0x40, 0x12, 0x34]), vec![0x23, 0x40]);
    assert_eq!(run(Opcode::SFT, short(), &[0x84, 0x00, 0xff]), vec![0x0f, 0xf0]);
    assert_eq!(run(Opcode::SFT, short(), &[0xf0, 0x00, 0x01]), vec![0x80, 0x00]);
    assert_eq!(run(Opcode::SFT, short(), &[0xff, 0xff, 0xff]), vec![0x00, 0x01]);
}

#[test]
fn jmp_is_relative_or_absolute() {
    let mut uxn = machine(&[0x02]);
    uxn.load_program(&[Opcode::JMP as u8, Opcode::ROT as u8, Opcode::ROT as u8, 0x00], 0x100);
    assert_eq!(uxn.eval(0x100), Ok(()));
    assert_eq!(uxn.pc(), 0x104);

    let mut uxn = machine(&[0xfe]);
    uxn.load_program(&[Opcode::JMP as u8], 0x100);
    uxn.set_pc(0x100);
    uxn.step().unwrap();
    assert_eq!(uxn.pc(), 0x0ff);

    let mut uxn = machine(&[0x02, 0x00]);
    uxn.load_program(&[0x2c], 0x100);
    assert_eq!(uxn.eval(0x100), Ok(()));
    assert_eq!(uxn.pc(), 0x201);
    assert_eq!(uxn.working_stack().ptr(), 0);
}

#[test]
fn jcn_jumps_on_a_condition_that_is_not_zero() {
    // the condition lies below the address
    let mut uxn = machine(&[0x01, 0x10]);
    uxn.set_pc(0x200);
    assert_eq!(uxn.execute(Opcode::JCN, none()), Ok(()));
    assert_eq!(uxn.pc(), 0x210);
    assert_eq!(uxn.working_stack().ptr(), 0);

    let mut uxn = machine(&[0x00, 0x10]);
    uxn.set_pc(0x200);
    assert_eq!(uxn.execute(Opcode::JCN, none()), Ok(()));
    assert_eq!(uxn.pc(), 0x200);
    assert_eq!(uxn.working_stack().ptr(), 0);

    let mut uxn = machine(&[0xff, 0x12, 0x34]);
    assert_eq!(uxn.execute(Opcode::JCN, short()), Ok(()));
    assert_eq!(uxn.pc(), 0x1234);

    let mut uxn = machine(&[0x12, 0x34]);
    assert_eq!(uxn.execute(Opcode::JCN, short()), Err(UxnError::StackUnderflow));
    assert_eq!(uxn.working_stack().ptr(), 0);
}

#[test]
fn jsr_pushes_the_return_address_on_the_other_stack() {
    let mut uxn = machine(&[0x05]);
    uxn.set_pc(0x0011);
    assert_eq!(uxn.execute(Opcode::JSR, none()), Ok(()));
    assert_eq!(uxn.pc(), 0x0016);
    assert_eq!(returning(&uxn), vec![0x11]);
    assert_eq!(working(&uxn), vec![]);

    // from the return stack the address goes to the working stack
    let mut uxn = Uxn::new();
    uxn.push16(0x0300, ret()).unwrap();
    uxn.set_pc(0x0142);
    assert_eq!(uxn.execute(Opcode::JSR, short() | ret()), Ok(()));
    assert_eq!(uxn.pc(), 0x0300);
    assert_eq!(working(&uxn), vec![0x42]);
    assert_eq!(returning(&uxn), vec![]);
}

#[test]
fn call_and_return_round_trip() {
    let mut uxn = machine(&[0x05]);
    // 0x10: JSR; 0x16: STHr, JMP2
    uxn.load_program(&[Opcode::JSR as u8], 0x10);
    uxn.load_program(&[0x4f, 0x2c], 0x16);
    uxn.set_pc(0x10);
    uxn.step().unwrap();
    assert_eq!(uxn.pc(), 0x16);
    assert_eq!(returning(&uxn), vec![0x11]);
    uxn.step().unwrap();
    assert_eq!(returning(&uxn), vec![]);
    assert_eq!(working(&uxn), vec![0x00, 0x11]);
    uxn.step().unwrap();
    assert_eq!(uxn.pc(), 0x11);
    assert_eq!(working(&uxn), vec![]);

    let mut uxn = machine(&[0x05]);
    uxn.load_program(&[Opcode::JSR as u8], 0x10);
    uxn.load_program(&[0x4f, 0x2c], 0x16);
    assert_eq!(uxn.eval(0x10), Ok(()));
    assert_eq!(uxn.pc(), 0x12);
}

#[test]
fn sth_moves_a_value_to_the_other_stack_as_two_bytes() {
    let mut uxn = machine(&[0x12, 0x34]);
    assert_eq!(uxn.execute(Opcode::STH, none()), Ok(()));
    assert_eq!(working(&uxn), vec![0x12]);
    assert_eq!(returning(&uxn), vec![0x00, 0x34]);
    assert_eq!(uxn.execute(Opcode::STH, short() | ret()), Ok(()));
    assert_eq!(working(&uxn), vec![0x12, 0x00, 0x34]);
    assert_eq!(returning(&uxn), vec![]);
}

#[test]
fn zero_page_load_and_store() {
    // the value lies below the address
    let mut uxn = machine(&[0xab, 0x40]);
    assert_eq!(uxn.execute(Opcode::STZ, none()), Ok(()));
    assert_eq!(working(&uxn), vec![]);
    assert_eq!(uxn.peek(0x40, none()), Ok(0xab));
    uxn.push8(0x40, none()).unwrap();
    assert_eq!(uxn.execute(Opcode::LDZ, none()), Ok(()));
    assert_eq!(working(&uxn), vec![0xab]);

    let mut uxn = machine(&[0x12, 0x34, 0xff]);
    assert_eq!(uxn.execute(Opcode::STZ, short()), Ok(()));
    assert_eq!(uxn.peek(0xff, none()), Ok(0x12));
    assert_eq!(uxn.peek(0x100, none()), Ok(0x34));
    uxn.push8(0xff, none()).unwrap();
    assert_eq!(uxn.execute(Opcode::LDZ, short()), Ok(()));
    assert_eq!(working(&uxn), vec![0x12, 0x34]);
}

#[test]
fn relative_load_and_store_take_an_unsigned_offset() {
    let mut uxn = machine(&[0x03]);
    uxn.load_program(&[Opcode::LDR as u8, 0x00, 0x00, 0x00, 0x77], 0x100);
    assert_eq!(uxn.eval(0x100), Ok(()));
    assert_eq!(working(&uxn), vec![0x77]);

    let mut uxn = machine(&[0xff]);
    uxn.poke(0x2ff, 0x1234, short()).unwrap();
    uxn.set_pc(0x200);
    assert_eq!(uxn.execute(Opcode::LDR, short()), Ok(()));
    assert_eq!(working(&uxn), vec![0x12, 0x34]);

    let mut uxn = machine(&[0x5a, 0x80]);
    uxn.set_pc(0x300);
    assert_eq!(uxn.execute(Opcode::STR, none()), Ok(()));
    assert_eq!(uxn.peek(0x380, none()), Ok(0x5a));
    assert_eq!(uxn.peek(0x280, none()), Ok(0x00));

    // the address wraps at the end of memory
    let mut uxn = machine(&[0x5a, 0x10]);
    uxn.set_pc(0xfff8);
    assert_eq!(uxn.execute(Opcode::STR, none()), Ok(()));
    assert_eq!(uxn.peek(0x0008, none()), Ok(0x5a));
}

#[test]
fn absolute_load_and_store() {
    let mut uxn = machine(&[0x03, 0x00]);
    uxn.poke(0x300, 0x1234, short()).unwrap();
    assert_eq!(uxn.execute(Opcode::LDA, short()), Ok(()));
    assert_eq!(working(&uxn), vec![0x12, 0x34]);

    let mut uxn = machine(&[0x03, 0x01]);
    uxn.poke(0x300, 0x1234, short()).unwrap();
    assert_eq!(uxn.execute(Opcode::LDA, none()), Ok(()));
    assert_eq!(working(&uxn), vec![0x34]);

    let mut uxn = machine(&[0x99, 0xab, 0xcd, 0x12, 0x00]);
    assert_eq!(uxn.execute(Opcode::STA, short()), Ok(()));
    assert_eq!(working(&uxn), vec![0x99]);
    assert_eq!(uxn.peek(0x1200, short()), Ok(0xabcd));

    let mut uxn = machine(&[0xcd, 0xff, 0xff]);
    assert_eq!(uxn.execute(Opcode::STA, none()), Ok(()));
    assert_eq!(uxn.peek(0xffff, none()), Ok(0xcd));

    // the address of LDA and STA has two bytes whatever the mode
    let mut uxn = machine(&[0x01]);
    assert_eq!(uxn.execute(Opcode::LDA, none()), Err(UxnError::StackUnderflow));
    assert_eq!(uxn.working_stack().ptr(), 1);
}

#[test]
fn keep_leaves_the_pointer_and_computes_the_same() {
    for op in [
        Opcode::INC,
        Opcode::POP,
        Opcode::NIP,
        Opcode::SWP,
        Opcode::ROT,
        Opcode::DUP,
        Opcode::OVR,
        Opcode::EQU,
        Opcode::NEQ,
        Opcode::GTH,
        Opcode::LTH,
        Opcode::JMP,
        Opcode::JCN,
        Opcode::JSR,
        Opcode::STH,
        Opcode::LDZ,
        Opcode::STZ,
        Opcode::LDR,
        Opcode::STR,
        Opcode::LDA,
        Opcode::STA,
        Opcode::ADD,
        Opcode::SUB,
        Opcode::MUL,
        Opcode::DIV,
        Opcode::AND,
        Opcode::ORA,
        Opcode::EOR,
        Opcode::SFT,
    ] {
        for width in [none(), short()] {
            let stack = [0x21, 0x43, 0x65, 0x87, 0x12, 0x05, 0x31, 0x07];
            let mut plain = machine(&stack);
            let mut kept = machine(&stack);
            plain.set_pc(0x400);
            kept.set_pc(0x400);
            let r_plain = plain.execute(op, width);
            let r_kept = kept.execute(op, width | keep());
            assert_eq!(r_kept, r_plain);
            assert_eq!(kept.working_stack().ptr(), 8);
            assert_eq!(kept.working_stack().kptr(), plain.working_stack().ptr());
            for i in 0..=255u8 {
                assert_eq!(kept.working_stack().byte(i), plain.working_stack().byte(i));
                assert_eq!(kept.return_stack().byte(i), plain.return_stack().byte(i));
            }
            assert_eq!(kept.return_stack().ptr(), plain.return_stack().ptr());
            assert_eq!(kept.pc(), plain.pc());
            for addr in [0x07usize, 0x08, 0x31, 0x32, 0x407, 0x408, 0x3107, 0x3108] {
                assert_eq!(kept.peek(addr, none()), plain.peek(addr, none()));
            }
        }
    }
}

#[test]
fn keep_add_writes_the_sum_where_it_would_stand() {
    let mut uxn = machine(&[0x10, 0x20]);
    uxn.load_program(&[0x98, 0x00], 0x100);
    assert_eq!(uxn.eval(0x100), Ok(()));
    assert_eq!(uxn.working_stack().ptr(), 2);
    assert_eq!(uxn.working_stack().kptr(), 1);
    assert_eq!(uxn.working_stack().byte(0), 0x30);
    assert_eq!(uxn.working_stack().byte(1), 0x20);
}

#[test]
fn short_mode_doubles_the_depth_change() {
    for (op, change) in [
        (Opcode::INC, 0i32),
        (Opcode::POP, -1),
        (Opcode::NIP, -1),
        (Opcode::SWP, 0),
        (Opcode::ROT, 0),
        (Opcode::DUP, 1),
        (Opcode::OVR, 1),
        (Opcode::JMP, -1),
        (Opcode::JSR, -1),
        (Opcode::STH, -1),
        (Opcode::ADD, -1),
        (Opcode::SUB, -1),
        (Opcode::MUL, -1),
        (Opcode::DIV, -1),
        (Opcode::AND, -1),
        (Opcode::ORA, -1),
        (Opcode::EOR, -1),
    ] {
        let stack = [1, 2, 3, 4, 5, 6, 7, 8];
        let mut byte = machine(&stack);
        assert_eq!(byte.execute(op, none()), Ok(()));
        assert_eq!(byte.working_stack().ptr() as i32 - 8, change);
        let mut wide = machine(&stack);
        assert_eq!(wide.execute(op, short()), Ok(()));
        assert_eq!(wide.working_stack().ptr() as i32 - 8, 2 * change);
    }
    // operations with an operand of fixed width do not double
    for (op, byte_change, short_change) in [
        (Opcode::EQU, -1i32, -3i32),
        (Opcode::JCN, -2, -3),
        (Opcode::LDZ, 0, 1),
        (Opcode::STZ, -2, -3),
        (Opcode::LDA, -1, 0),
        (Opcode::STA, -3, -4),
        (Opcode::SFT, -1, -1),
    ] {
        let stack = [1, 2, 3, 4, 5, 6, 7, 8];
        let mut byte = machine(&stack);
        assert_eq!(byte.execute(op, none()), Ok(()));
        assert_eq!(byte.working_stack().ptr() as i32 - 8, byte_change);
        let mut wide = machine(&stack);
        assert_eq!(wide.execute(op, short()), Ok(()));
        assert_eq!(wide.working_stack().ptr() as i32 - 8, short_change);
    }
}

#[test]
fn return_mode_works_on_the_return_stack() {
    let mut uxn = Uxn::new();
    uxn.push8(0x10, ret()).unwrap();
    uxn.push8(0x20, ret()).unwrap();
    uxn.push8(0x99, none()).unwrap();
    assert_eq!(uxn.execute(Opcode::ADD, ret()), Ok(()));
    assert_eq!(returning(&uxn), vec![0x30]);
    assert_eq!(working(&uxn), vec![0x99]);
}
