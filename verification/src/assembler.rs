//! The textual notation for instructions, labels and addresses.
//!
//! Every rule reads the beginning of its input and, where that is what the
//! rule describes, returns the rest of the input and what it read.  The
//! input is bytes; all the characters of the notation are ASCII.
use vstd::prelude::*;
use vstd::slice::{slice_subrange, slice_to_vec};
use crate::mode::InstructionMode;
use crate::opcode::Opcode;

verus! {

/// Why a rule did not accept its input.
#[derive(Clone, Copy, Debug, PartialEq, Eq, Structural)]
pub enum ParseError {
    /// The input does not begin with what the rule describes.
    Mismatch,
    /// A number does not fit in sixteen bits.
    Overflow,
}

/// What a rule returns: the rest of the input and what was read, or why the
/// input was not accepted.
pub type ParseResult<'a, T> = Result<(&'a [u8], T), ParseError>;

/// An instruction as written: the operation, its mode, and for `LIT` the
/// literal that follows it.
#[derive(Clone, Copy, Debug, PartialEq, Eq, Structural)]
pub struct Instruction {
    pub opcode: Opcode,
    pub mode: InstructionMode,
    pub immediate: u16,
}

/// Whether a label opens a scope or belongs to one.
#[derive(Clone, Copy, Debug, PartialEq, Eq, Structural)]
pub enum LabelType {
    /// Written `@name`.
    Parent,
    /// Written `:name`.
    Child,
}

/// A label: its name and its kind.
#[derive(Clone, Debug, PartialEq, Eq)]
pub struct Label {
    pub name: Vec<u8>,
    pub type_: LabelType,
}

/// A label as plain values.
pub struct LabelSpec {
    pub name: Seq<u8>,
    pub type_: LabelType,
}

impl View for Label {
    type V = LabelSpec;

    open spec fn view(&self) -> LabelSpec {
        LabelSpec { name: self.name@, type_: self.type_ }
    }
}

/// How an address is to be used, told by the character before it.
#[derive(Clone, Copy, Debug, PartialEq, Eq, Structural)]
pub enum AddressingMode {
    /// Written `,`: a literal offset from the program counter.
    LiteralRelative,
    /// Written `.`: a literal address in the first 256 bytes.
    LiteralZeroPage,
    /// Written `:`: a raw absolute address.
    RawAbsolute,
    /// Written `;`: a literal absolute address.
    LiteralAbsolute,
}

/// An address and how it is to be used.
#[derive(Clone, Copy, Debug, PartialEq, Eq, Structural)]
pub struct Address {
    pub mode: AddressingMode,
    pub address: u16,
}

/// The sets of characters that the rules speak of.
#[derive(Clone, Copy, Debug, PartialEq, Eq, Structural)]
pub enum CharClass {
    /// `0` to `9`, `a` to `f`, `A` to `F`.
    HexDigit,
    /// `a` to `z`, `A` to `Z`, `0` to `9` and `_`.
    Word,
    /// Space, tab, carriage return, line feed.
    Blank,
    /// Everything but `)`.
    NotClosing,
}

/// `b` is a letter of the ASCII alphabet.
pub open spec fn is_letter(b: u8) -> bool {
    0x41 <= b <= 0x5a || 0x61 <= b <= 0x7a
}

/// `b` is one of the digits `0` to `9`.
pub open spec fn is_digit(b: u8) -> bool {
    0x30 <= b <= 0x39
}

/// The value of a hexadecimal digit.
pub open spec fn digit_value(b: u8) -> int {
    if is_digit(b) {
        b - 0x30
    } else if 0x61 <= b <= 0x66 {
        b - 0x61 + 10
    } else {
        b - 0x41 + 10
    }
}

impl CharClass {
    /// Whether the class holds `b`.
    pub open spec fn has(self, b: u8) -> bool {
        match self {
            CharClass::HexDigit => is_digit(b) || 0x61 <= b <= 0x66 || 0x41 <= b <= 0x46,
            CharClass::Word => is_letter(b) || is_digit(b) || b == 0x5f,
            CharClass::Blank => b == 0x20 || b == 0x09 || b == 0x0d || b == 0x0a,
            CharClass::NotClosing => b != 0x29,
        }
    }

    /// Whether the class holds `b`.
    pub fn contains(self, b: u8) -> (r: bool)
        ensures
            r == self.has(b),
    {
        match self {
            CharClass::HexDigit => (0x30 <= b && b <= 0x39) || (0x61 <= b && b <= 0x66) || (0x41
                <= b && b <= 0x46),
            CharClass::Word => (0x41 <= b && b <= 0x5a) || (0x61 <= b && b <= 0x7a) || (0x30 <= b
                && b <= 0x39) || b == 0x5f,
            CharClass::Blank => b == 0x20 || b == 0x09 || b == 0x0d || b == 0x0a,
            CharClass::NotClosing => b != 0x29,
        }
    }
}

/// The number of bytes at the beginning of `input` that are all in `class`.
pub open spec fn run(input: Seq<u8>, class: CharClass) -> int
    decreases input.len(),
{
    if input.len() > 0 && class.has(input[0]) {
        1 + run(input.skip(1), class)
    } else {
        0
    }
}

/// A run is the longest prefix in the class: `n` bytes in the class, and
/// then the end of the input or a byte that is not.
pub proof fn lemma_run(input: Seq<u8>, class: CharClass, n: int)
    requires
        0 <= n <= input.len(),
        forall|i: int| 0 <= i < n ==> class.has(input[i]),
        n == input.len() || !class.has(input[n]),
    ensures
        run(input, class) == n,
    decreases n,
{
    if n > 0 {
        let rest = input.skip(1);
        assert forall|i: int| 0 <= i < n - 1 implies class.has(rest[i]) by {
            assert(rest[i] == input[i + 1]);
        }
        lemma_run(rest, class, n - 1);
    }
}

/// The number that a sequence of hexadecimal digits writes.
pub open spec fn hex_value(digits: Seq<u8>) -> int
    decreases digits.len(),
{
    if digits.len() == 0 {
        0
    } else {
        hex_value(digits.drop_last()) * 16 + digit_value(digits.last())
    }
}

/// One more digit multiplies the number by sixteen and adds the digit.
pub proof fn lemma_hex_value_step(input: Seq<u8>, i: int)
    requires
        0 <= i < input.len(),
    ensures
        hex_value(input.take(i + 1)) == hex_value(input.take(i)) * 16 + digit_value(input[i]),
{
    assert(input.take(i + 1).drop_last() =~= input.take(i));
}

/// More digits never write a smaller number.
pub proof fn lemma_hex_value_grows(input: Seq<u8>, i: int, j: int)
    requires
        0 <= i <= j <= input.len(),
        forall|k: int| 0 <= k < j ==> CharClass::HexDigit.has(input[k]),
    ensures
        0 <= hex_value(input.take(i)) <= hex_value(input.take(j)),
    decreases j,
{
    if i == 0 {
        assert(input.take(0).len() == 0);
    }
    if j > i {
        lemma_hex_value_grows(input, i, j - 1);
        lemma_hex_value_step(input, j - 1);
    } else if i > 0 {
        lemma_hex_value_grows(input, 0, i - 1);
        lemma_hex_value_step(input, i - 1);
        lemma_hex_value_grows(input, i - 1, i - 1);
    }
}

/// Counts the bytes at the beginning of `input` that are all in `class`.
pub fn scan(input: &[u8], class: CharClass) -> (n: usize)
    ensures
        n == run(input@, class),
        n <= input@.len(),
        forall|i: int| 0 <= i < n ==> class.has(input@[i]),
{
    let mut n: usize = 0;
    while n < input.len() && class.contains(input[n])
        invariant
            n <= input@.len(),
            forall|i: int| 0 <= i < n ==> class.has(input@[i]),
        decreases input@.len() - n,
    {
        n += 1;
    }
    proof {
        lemma_run(input@, class, n as int);
    }
    n
}

/// The input from its byte `n` on.
pub fn skip(input: &[u8], n: usize) -> (rest: &[u8])
    requires
        n <= input@.len(),
    ensures
        rest@ == input@.skip(n as int),
{
    let rest = slice_subrange(input, n, input.len());
    assert(rest@ =~= input@.skip(n as int));
    rest
}

/// What `tag_byte` makes of an input: the rest behind the first byte, if
/// that byte is `expected`.
pub open spec fn tag_byte_spec(input: Seq<u8>, expected: u8) -> Option<Seq<u8>> {
    if input.len() > 0 && input[0] == expected {
        Some(input.skip(1))
    } else {
        None
    }
}

/// Accepts the one byte `expected`.
pub fn tag_byte(input: &[u8], expected: u8) -> (r: Option<&[u8]>)
    ensures
        match r {
            Some(rest) => tag_byte_spec(input@, expected) == Some(rest@),
            None => tag_byte_spec(input@, expected) is None,
        },
{
    if input.len() > 0 && input[0] == expected {
        Some(skip(input, 1))
    } else {
        None
    }
}

/// Makes an optional rule of a rule: given what the rule returned on
/// `input`, the rest of the input if it matched and `None` if not, returns
/// that rest with `success_value`, or all of `input` with `fail_value`.
pub fn either_or<'a, O>(
    success_value: O,
    fail_value: O,
    input: &'a [u8],
    parsed: Option<&'a [u8]>,
) -> (r: (&'a [u8], O))
    ensures
        r == match parsed {
            Some(rest) => (rest, success_value),
            None => (input, fail_value),
        },
{
    match parsed {
        Some(rest) => (rest, success_value),
        None => (input, fail_value),
    }
}

/// What `inline_comment` makes of an input: behind `(`, everything up to the
/// first `)` is the comment; the rest begins behind that `)`.
pub open spec fn inline_comment_spec(input: Seq<u8>) -> Result<(Seq<u8>, ()), ParseError> {
    if input.len() > 0 && input[0] == 0x28 && 1 + run(input.skip(1), CharClass::NotClosing)
        < input.len() {
        Ok((input.skip(2 + run(input.skip(1), CharClass::NotClosing)), ()))
    } else {
        Err(ParseError::Mismatch)
    }
}

/// A comment in parentheses: `(`, any text without `)`, and `)`.
pub fn inline_comment(input: &[u8]) -> (r: ParseResult<'_, ()>)
    ensures
        match r {
            Ok((rest, v)) => inline_comment_spec(input@) == Ok::<_, ParseError>((rest@, v)),
            Err(e) => inline_comment_spec(input@) == Err::<(Seq<u8>, ()), _>(e),
        },
{
    match tag_byte(input, 0x28) {
        Some(body) => {
            let n = scan(body, CharClass::NotClosing);
            if n < body.len() {
                let rest = skip(body, n + 1);
                assert(rest@ =~= input@.skip(2 + n as int));
                Ok((rest, ()))
            } else {
                Err(ParseError::Mismatch)
            }
        },
        None => Err(ParseError::Mismatch),
    }
}

/// What `hexadecimal` makes of an input: the hexadecimal digits at its
/// beginning, one at least, write a number, which must fit in sixteen bits.
pub open spec fn hexadecimal_spec(input: Seq<u8>) -> Result<(Seq<u8>, u16), ParseError> {
    let n = run(input, CharClass::HexDigit);
    if n == 0 {
        Err(ParseError::Mismatch)
    } else if hex_value(input.take(n)) > 0xffff {
        Err(ParseError::Overflow)
    } else {
        Ok((input.skip(n), hex_value(input.take(n)) as u16))
    }
}

/// A hexadecimal number: one digit or more, in either case, with a value of
/// at most `ffff`.
pub fn hexadecimal(input: &[u8]) -> (r: ParseResult<'_, u16>)
    ensures
        match r {
            Ok((rest, v)) => hexadecimal_spec(input@) == Ok::<_, ParseError>((rest@, v)),
            Err(e) => hexadecimal_spec(input@) == Err::<(Seq<u8>, u16), _>(e),
        },
{
    let n = scan(input, CharClass::HexDigit);
    if n == 0 {
        return Err(ParseError::Mismatch);
    }
    let mut value: u32 = 0;
    let mut i: usize = 0;
    assert(input@.take(0).len() == 0);
    while i < n
        invariant
            i <= n <= input@.len(),
            0 < n == run(input@, CharClass::HexDigit),
            forall|k: int| 0 <= k < n ==> CharClass::HexDigit.has(input@[k]),
            value == hex_value(input@.take(i as int)),
            value <= 0xffff,
        decreases n - i,
    {
        let b = input[i];
        let digit: u32 = if 0x30 <= b && b <= 0x39 {
            (b - 0x30) as u32
        } else if 0x61 <= b && b <= 0x66 {
            (b - 0x61) as u32 + 10
        } else {
            (b - 0x41) as u32 + 10
        };
        proof {
            lemma_hex_value_step(input@, i as int);
        }
        if value > 0xfff {
            proof {
                lemma_hex_value_grows(input@, i + 1, n as int);
            }
            return Err(ParseError::Overflow);
        }
        value = value * 16 + digit;
        i += 1;
    }
    Ok((skip(input, n), value as u16))
}

/// `b` may begin an identifier: a letter or `_`.
pub open spec fn begins_identifier(b: u8) -> bool {
    is_letter(b) || b == 0x5f
}

/// What `identifier` makes of an input: a letter or `_`, and behind it all
/// the letters, digits and `_` that follow.
pub open spec fn identifier_spec(input: Seq<u8>) -> Result<(Seq<u8>, Seq<u8>), ParseError> {
    if input.len() > 0 && begins_identifier(input[0]) {
        let n = 1 + run(input.skip(1), CharClass::Word);
        Ok((input.skip(n), input.take(n)))
    } else {
        Err(ParseError::Mismatch)
    }
}

/// An identifier: a letter or `_`, then letters, digits and `_`.
pub fn identifier(input: &[u8]) -> (r: ParseResult<'_, &[u8]>)
    ensures
        match r {
            Ok((rest, name)) => identifier_spec(input@) == Ok::<_, ParseError>((rest@, name@)),
            Err(e) => identifier_spec(input@) == Err::<(Seq<u8>, Seq<u8>), _>(e),
        },
{
    if input.len() == 0 {
        return Err(ParseError::Mismatch);
    }
    let b = input[0];
    if !((0x41 <= b && b <= 0x5a) || (0x61 <= b && b <= 0x7a) || b == 0x5f) {
        return Err(ParseError::Mismatch);
    }
    let n = 1 + scan(skip(input, 1), CharClass::Word);
    let name = slice_subrange(input, 0, n);
    assert(name@ =~= input@.take(n as int));
    Ok((skip(input, n), name))
}

/// What `ascii_literal` makes of an input.  The rule asks, behind `"`, for
/// one or more repetitions of something that reads no byte; no input has
/// that, so none is accepted.
pub open spec fn ascii_literal_spec(input: Seq<u8>) -> Result<(Seq<u8>, Seq<u8>), ParseError> {
    Err(ParseError::Mismatch)
}

/// A quoted literal.  The notation writes one as `"` and the text; the rule
/// as it stands accepts no input.
pub fn ascii_literal(input: &[u8]) -> (r: ParseResult<'_, &[u8]>)
    ensures
        match r {
            Ok((rest, text)) => ascii_literal_spec(input@) == Ok::<_, ParseError>((rest@, text@)),
            Err(e) => ascii_literal_spec(input@) == Err::<(Seq<u8>, Seq<u8>), _>(e),
        },
{
    Err(ParseError::Mismatch)
}

/// How an address behind the character `b` is to be used, if `b` is one of
/// `,`, `.`, `:` and `;`.
pub open spec fn addressing_mode_of(b: u8) -> Option<AddressingMode> {
    if b == 0x2c {
        Some(AddressingMode::LiteralRelative)
    } else if b == 0x2e {
        Some(AddressingMode::LiteralZeroPage)
    } else if b == 0x3a {
        Some(AddressingMode::RawAbsolute)
    } else if b == 0x3b {
        Some(AddressingMode::LiteralAbsolute)
    } else {
        None
    }
}

/// What `address` makes of an input: one of `,`, `.`, `:` and `;`, and
/// behind it a hexadecimal number.
pub open spec fn address_spec(input: Seq<u8>) -> Result<(Seq<u8>, Address), ParseError> {
    if input.len() > 0 && addressing_mode_of(input[0]) is Some {
        match hexadecimal_spec(input.skip(1)) {
            Ok((rest, address)) => Ok(
                (rest, Address { mode: addressing_mode_of(input[0])->Some_0, address }),
            ),
            Err(e) => Err(e),
        }
    } else {
        Err(ParseError::Mismatch)
    }
}

/// An address: `,`, `.`, `:` or `;`, then a hexadecimal number.
pub fn address(input: &[u8]) -> (r: ParseResult<'_, Address>)
    ensures
        match r {
            Ok((rest, v)) => address_spec(input@) == Ok::<_, ParseError>((rest@, v)),
            Err(e) => address_spec(input@) == Err::<(Seq<u8>, Address), _>(e),
        },
{
    if input.len() == 0 {
        return Err(ParseError::Mismatch);
    }
    let mode = match input[0] {
        0x2c => AddressingMode::LiteralRelative,
        0x2e => AddressingMode::LiteralZeroPage,
        0x3a => AddressingMode::RawAbsolute,
        0x3b => AddressingMode::LiteralAbsolute,
        _ => return Err(ParseError::Mismatch),
    };
    match hexadecimal(skip(input, 1)) {
        Ok((rest, address)) => Ok((rest, Address { mode, address })),
        Err(e) => Err(e),
    }
}

/// What `label` makes of an input: `@` for a parent or `:` for a child, and
/// behind it an identifier, the name.
pub open spec fn label_spec(input: Seq<u8>) -> Result<(Seq<u8>, LabelSpec), ParseError> {
    if input.len() > 0 && (input[0] == 0x40 || input[0] == 0x3a) {
        match identifier_spec(input.skip(1)) {
            Ok((rest, name)) => Ok(
                (
                    rest,
                    LabelSpec {
                        name,
                        type_: if input[0] == 0x40 {
                            LabelType::Parent
                        } else {
                            LabelType::Child
                        },
                    },
                ),
            ),
            Err(e) => Err(e),
        }
    } else {
        Err(ParseError::Mismatch)
    }
}

/// A label: `@` or `:`, then an identifier.
pub fn label(input: &[u8]) -> (r: ParseResult<'_, Label>)
    ensures
        match r {
            Ok((rest, v)) => label_spec(input@) == Ok::<_, ParseError>((rest@, v@)),
            Err(e) => label_spec(input@) == Err::<(Seq<u8>, LabelSpec), _>(e),
        },
{
    if input.len() == 0 {
        return Err(ParseError::Mismatch);
    }
    let type_ = match input[0] {
        0x40 => LabelType::Parent,
        0x3a => LabelType::Child,
        _ => return Err(ParseError::Mismatch),
    };
    match identifier(skip(input, 1)) {
        Ok((rest, name)) => Ok((rest, Label { name: slice_to_vec(name), type_ })),
        Err(e) => Err(e),
    }
}

/// What `immediate` makes of an input: `#` and a hexadecimal number, which
/// is the literal of a `LIT` with the Keep flag, and with the Short flag too
/// if the number is above `ff`.
pub open spec fn immediate_spec(input: Seq<u8>) -> Result<(Seq<u8>, Instruction), ParseError> {
    if input.len() > 0 && input[0] == 0x23 {
        match hexadecimal_spec(input.skip(1)) {
            Ok((rest, v)) => Ok(
                (
                    rest,
                    Instruction {
                        opcode: Opcode::LIT,
                        mode: InstructionMode::of_flags(v > 0xff, true, false),
                        immediate: v,
                    },
                ),
            ),
            Err(e) => Err(e),
        }
    } else {
        Err(ParseError::Mismatch)
    }
}

/// An immediate value: `#`, then a hexadecimal number.
pub fn immediate(input: &[u8]) -> (r: ParseResult<'_, Instruction>)
    ensures
        match r {
            Ok((rest, v)) => immediate_spec(input@) == Ok::<_, ParseError>((rest@, v)),
            Err(e) => immediate_spec(input@) == Err::<(Seq<u8>, Instruction), _>(e),
        },
{
    match tag_byte(input, 0x23) {
        Some(digits) => match hexadecimal(digits) {
            Ok((rest, v)) => Ok(
                (
                    rest,
                    Instruction {
                        opcode: Opcode::LIT,
                        mode: InstructionMode::from_flags(v > 0xff, true, false),
                        immediate: v,
                    },
                ),
            ),
            Err(e) => Err(e),
        },
        None => Err(ParseError::Mismatch),
    }
}

/// The flags that the suffix of a mnemonic sets, and the rest behind it:
/// `2` for Short, then `k` for Keep, then `r` for Return, each optional,
/// in this order.
pub open spec fn mode_flags_spec(input: Seq<u8>) -> (Seq<u8>, (bool, bool, bool)) {
    let short = tag_byte_spec(input, 0x32);
    let rest1 = if short is Some {
        short->Some_0
    } else {
        input
    };
    let keep = tag_byte_spec(rest1, 0x6b);
    let rest2 = if keep is Some {
        keep->Some_0
    } else {
        rest1
    };
    let ret = tag_byte_spec(rest2, 0x72);
    let rest3 = if ret is Some {
        ret->Some_0
    } else {
        rest2
    };
    (rest3, (short is Some, keep is Some, ret is Some))
}

/// What `instruction_mode_flags` makes of an input: the mode with the flags
/// of the suffix, and the rest behind the suffix.
pub open spec fn instruction_mode_flags_spec(input: Seq<u8>) -> (Seq<u8>, InstructionMode) {
    let (rest, (short, keep, ret)) = mode_flags_spec(input);
    (rest, InstructionMode::of_flags(short, keep, ret))
}

/// Reads the three optional flag characters, in their order.
fn mode_flags(input: &[u8]) -> (r: (&[u8], (bool, bool, bool)))
    ensures
        (r.0@, r.1) == mode_flags_spec(input@),
{
    let (rest1, short) = either_or(true, false, input, tag_byte(input, 0x32));
    let (rest2, keep) = either_or(true, false, rest1, tag_byte(rest1, 0x6b));
    let (rest3, ret) = either_or(true, false, rest2, tag_byte(rest2, 0x72));
    (rest3, (short, keep, ret))
}

/// The suffix of a mnemonic: `2`, `k` and `r`, each optional, in this
/// order.  Every input is accepted; the suffix may be empty.
pub fn instruction_mode_flags(input: &[u8]) -> (r: ParseResult<'_, InstructionMode>)
    ensures
        r matches Ok((rest, mode)) && (rest@, mode) == instruction_mode_flags_spec(input@),
{
    let (rest, (short, keep, ret)) = mode_flags(input);
    Ok((rest, InstructionMode::from_flags(short, keep, ret)))
}

/// The operation that three letters name, if they name one.
pub open spec fn of_mnemonic(a: u8, b: u8, c: u8) -> Option<Opcode> {
    if exists|op: Opcode| mnemonic(op) == (a, b, c) {
        Some(choose|op: Opcode| mnemonic(op) == (a, b, c))
    } else {
        None
    }
}

/// The three letters that name an operation.
pub open spec fn mnemonic(op: Opcode) -> (u8, u8, u8) {
    match op {
        Opcode::LIT => (0x4c, 0x49, 0x54),
        Opcode::INC => (0x49, 0x4e, 0x43),
        Opcode::POP => (0x50, 0x4f, 0x50),
        Opcode::NIP => (0x4e, 0x49, 0x50),
        Opcode::SWP => (0x53, 0x57, 0x50),
        Opcode::ROT => (0x52, 0x4f, 0x54),
        Opcode::DUP => (0x44, 0x55, 0x50),
        Opcode::OVR => (0x4f, 0x56, 0x52),
        Opcode::EQU => (0x45, 0x51, 0x55),
        Opcode::NEQ => (0x4e, 0x45, 0x51),
        Opcode::GTH => (0x47, 0x54, 0x48),
        Opcode::LTH => (0x4c, 0x54, 0x48),
        Opcode::JMP => (0x4a, 0x4d, 0x50),
        Opcode::JCN => (0x4a, 0x43, 0x4e),
        Opcode::JSR => (0x4a, 0x53, 0x52),
        Opcode::STH => (0x53, 0x54, 0x48),
        Opcode::LDZ => (0x4c, 0x44, 0x5a),
        Opcode::STZ => (0x53, 0x54, 0x5a),
        Opcode::LDR => (0x4c, 0x44, 0x52),
        Opcode::STR => (0x53, 0x54, 0x52),
        Opcode::LDA => (0x4c, 0x44, 0x41),
        Opcode::STA => (0x53, 0x54, 0x41),
        Opcode::DEI => (0x44, 0x45, 0x49),
        Opcode::DEO => (0x44, 0x45, 0x4f),
        Opcode::ADD => (0x41, 0x44, 0x44),
        Opcode::SUB => (0x53, 0x55, 0x42),
        Opcode::MUL => (0x4d, 0x55, 0x4c),
        Opcode::DIV => (0x44, 0x49, 0x56),
        Opcode::AND => (0x41, 0x4e, 0x44),
        Opcode::ORA => (0x4f, 0x52, 0x41),
        Opcode::EOR => (0x45, 0x4f, 0x52),
        Opcode::SFT => (0x53, 0x46, 0x54),
    }
}

/// The operation that three letters name, if they name one.
pub fn opcode_of_mnemonic(a: u8, b: u8, c: u8) -> (r: Option<Opcode>)
    ensures
        r == of_mnemonic(a, b, c),
        r matches Some(op) ==> mnemonic(op) == (a, b, c),
        r is None ==> forall|op: Opcode| mnemonic(op) != (a, b, c),
{
    let r = match (a, b, c) {
        (0x4c, 0x49, 0x54) => Some(Opcode::LIT),
        (0x49, 0x4e, 0x43) => Some(Opcode::INC),
        (0x50, 0x4f, 0x50) => Some(Opcode::POP),
        (0x4e, 0x49, 0x50) => Some(Opcode::NIP),
        (0x53, 0x57, 0x50) => Some(Opcode::SWP),
        (0x52, 0x4f, 0x54) => Some(Opcode::ROT),
        (0x44, 0x55, 0x50) => Some(Opcode::DUP),
        (0x4f, 0x56, 0x52) => Some(Opcode::OVR),
        (0x45, 0x51, 0x55) => Some(Opcode::EQU),
        (0x4e, 0x45, 0x51) => Some(Opcode::NEQ),
        (0x47, 0x54, 0x48) => Some(Opcode::GTH),
        (0x4c, 0x54, 0x48) => Some(Opcode::LTH),
        (0x4a, 0x4d, 0x50) => Some(Opcode::JMP),
        (0x4a, 0x43, 0x4e) => Some(Opcode::JCN),
        (0x4a, 0x53, 0x52) => Some(Opcode::JSR),
        (0x53, 0x54, 0x48) => Some(Opcode::STH),
        (0x4c, 0x44, 0x5a) => Some(Opcode::LDZ),
        (0x53, 0x54, 0x5a) => Some(Opcode::STZ),
        (0x4c, 0x44, 0x52) => Some(Opcode::LDR),
        (0x53, 0x54, 0x52) => Some(Opcode::STR),
        (0x4c, 0x44, 0x41) => Some(Opcode::LDA),
        (0x53, 0x54, 0x41) => Some(Opcode::STA),
        (0x44, 0x45, 0x49) => Some(Opcode::DEI),
        (0x44, 0x45, 0x4f) => Some(Opcode::DEO),
        (0x41, 0x44, 0x44) => Some(Opcode::ADD),
        (0x53, 0x55, 0x42) => Some(Opcode::SUB),
        (0x4d, 0x55, 0x4c) => Some(Opcode::MUL),
        (0x44, 0x49, 0x56) => Some(Opcode::DIV),
        (0x41, 0x4e, 0x44) => Some(Opcode::AND),
        (0x4f, 0x52, 0x41) => Some(Opcode::ORA),
        (0x45, 0x4f, 0x52) => Some(Opcode::EOR),
        (0x53, 0x46, 0x54) => Some(Opcode::SFT),
        _ => None,
    };
    proof {
        match r {
            Some(found) => {
                assert(mnemonic(found) == (a, b, c));
                let chosen = choose|op: Opcode| mnemonic(op) == (a, b, c);
                assert(mnemonic(chosen) == (a, b, c));
                assert(chosen == found);
            },
            None => {
                assert forall|op: Opcode| mnemonic(op) != (a, b, c) by {}
            },
        }
    }
    r
}

/// What `instruction` makes of an input that does not begin with `LIT`: the
/// three letters of an operation and the suffix of flags.
pub open spec fn plain_instruction_spec(input: Seq<u8>) -> Result<
    (Seq<u8>, Instruction),
    ParseError,
> {
    if input.len() >= 3 && of_mnemonic(input[0], input[1], input[2]) is Some && of_mnemonic(
        input[0],
        input[1],
        input[2],
    ) != Some(Opcode::LIT) {
        let (rest, mode) = instruction_mode_flags_spec(input.skip(3));
        Ok(
            (
                rest,
                Instruction {
                    opcode: of_mnemonic(input[0], input[1], input[2])->Some_0,
                    mode,
                    immediate: 0,
                },
            ),
        )
    } else {
        Err(ParseError::Mismatch)
    }
}

/// What `instruction` makes of an input that begins with `LIT`: the suffix
/// of flags, blank space, and the literal, a hexadecimal number.  The mode
/// has the Keep flag, written or not.
pub open spec fn literal_instruction_spec(input: Seq<u8>) -> Result<
    (Seq<u8>, Instruction),
    ParseError,
> {
    if input.len() >= 3 && (input[0], input[1], input[2]) == mnemonic(Opcode::LIT) {
        let (rest, (short, keep, ret)) = mode_flags_spec(input.skip(3));
        let blank = run(rest, CharClass::Blank);
        if blank == 0 {
            Err(ParseError::Mismatch)
        } else {
            match hexadecimal_spec(rest.skip(blank)) {
                Ok((rest, immediate)) => Ok(
                    (
                        rest,
                        Instruction {
                            opcode: Opcode::LIT,
                            mode: InstructionMode::of_flags(short, true, ret),
                            immediate,
                        },
                    ),
                ),
                Err(e) => Err(e),
            }
        }
    } else {
        Err(ParseError::Mismatch)
    }
}

/// What `instruction` makes of an input.
pub open spec fn instruction_spec(input: Seq<u8>) -> Result<(Seq<u8>, Instruction), ParseError> {
    match plain_instruction_spec(input) {
        Ok(found) => Ok(found),
        Err(_) => literal_instruction_spec(input),
    }
}

/// An instruction: the three capital letters of an operation and a suffix
/// of flags; for `LIT`, blank space and the literal behind that.
pub fn instruction(input: &[u8]) -> (r: ParseResult<'_, Instruction>)
    ensures
        match r {
            Ok((rest, v)) => instruction_spec(input@) == Ok::<_, ParseError>((rest@, v)),
            Err(e) => instruction_spec(input@) == Err::<(Seq<u8>, Instruction), _>(e),
        },
{
    if input.len() < 3 {
        return Err(ParseError::Mismatch);
    }
    let opcode = match opcode_of_mnemonic(input[0], input[1], input[2]) {
        Some(opcode) => opcode,
        None => return Err(ParseError::Mismatch),
    };
    let (rest, (short, keep, ret)) = mode_flags(skip(input, 3));
    match opcode {
        Opcode::LIT => {
            let blank = scan(rest, CharClass::Blank);
            if blank == 0 {
                return Err(ParseError::Mismatch);
            }
            match hexadecimal(skip(rest, blank)) {
                Ok((rest, immediate)) => Ok(
                    (
                        rest,
                        Instruction {
                            opcode,
                            mode: InstructionMode::from_flags(short, true, ret),
                            immediate,
                        },
                    ),
                ),
                Err(e) => Err(e),
            }
        },
        _ => Ok(
            (
                rest,
                Instruction {
                    opcode,
                    mode: InstructionMode::from_flags(short, keep, ret),
                    immediate: 0,
                },
            ),
        ),
    }
}

} // verus!
