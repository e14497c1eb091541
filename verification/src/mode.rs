//! The mode flags carried in the high three bits of an instruction byte.
use vstd::prelude::*;

verus! {

/// The bit of the Short flag: operate on two-byte values.
pub const SHORT_BIT: u8 = 0x20;

/// The bit of the Return flag: operate on the return stack.
pub const RETURN_BIT: u8 = 0x40;

/// The bit of the Keep flag: read and write through the shadow pointer.
pub const KEEP_BIT: u8 = 0x80;

/// A set of mode flags, held as the byte they are encoded in.
///
/// Only the three high bits carry a flag.  A mode made from a whole
/// instruction byte keeps the opcode bits as well; the flag predicates do not
/// look at them, equality does.
#[derive(Clone, Copy, Debug, PartialEq, Eq, Hash, Structural)]
pub struct InstructionMode {
    bits: u8,
}

/// Bit 5 of `b` is set.
pub open spec fn short_bit_set(b: u8) -> bool {
    (b / 32) % 2 == 1
}

/// Bit 6 of `b` is set.
pub open spec fn return_bit_set(b: u8) -> bool {
    (b / 64) % 2 == 1
}

/// Bit 7 of `b` is set.
pub open spec fn keep_bit_set(b: u8) -> bool {
    b >= 128
}

/// The flag bits, read arithmetically, are the flag bits, read as a mask.
pub proof fn lemma_flag_bits(b: u8)
    ensures
        short_bit_set(b) == (b & 0x20 == 0x20),
        return_bit_set(b) == (b & 0x40 == 0x40),
        keep_bit_set(b) == (b & 0x80 == 0x80),
{
    assert(((b / 32) % 2 == 1 <==> b & 0x20 == 0x20) && ((b / 64) % 2 == 1 <==> b & 0x40 == 0x40)
        && (b >= 128 <==> b & 0x80 == 0x80)) by (bit_vector);
}

/// How the flag bits of a union come from those of its two sides.
pub proof fn lemma_union_bits(a: u8, b: u8)
    ensures
        short_bit_set(a | b) == (short_bit_set(a) || short_bit_set(b)),
        return_bit_set(a | b) == (return_bit_set(a) || return_bit_set(b)),
        keep_bit_set(a | b) == (keep_bit_set(a) || keep_bit_set(b)),
{
    lemma_flag_bits(a);
    lemma_flag_bits(b);
    lemma_flag_bits(a | b);
    assert((((a | b) & 0x20 == 0x20) == ((a & 0x20 == 0x20) || (b & 0x20 == 0x20))) && (((a | b)
        & 0x40 == 0x40) == ((a & 0x40 == 0x40) || (b & 0x40 == 0x40))) && (((a | b) & 0x80 == 0x80)
        == ((a & 0x80 == 0x80) || (b & 0x80 == 0x80)))) by (bit_vector);
}

impl InstructionMode {
    /// The byte this mode is held as.
    pub closed spec fn bits_spec(self) -> u8 {
        self.bits
    }

    /// Whether the Short flag is set.
    pub open spec fn short(&self) -> bool {
        short_bit_set(self.bits_spec())
    }

    /// Whether the Return flag is set.
    pub open spec fn ret(&self) -> bool {
        return_bit_set(self.bits_spec())
    }

    /// Whether the Keep flag is set.
    pub open spec fn keep(&self) -> bool {
        keep_bit_set(self.bits_spec())
    }

    /// The mode with the bits of both.
    pub open spec fn union(self, other: Self) -> Self {
        Self::from_bits_spec(self.bits_spec() | other.bits_spec())
    }

    /// The mode held as `bits`.
    pub closed spec fn from_bits_spec(bits: u8) -> Self {
        InstructionMode { bits }
    }

    /// A mode is its byte: the two conversions undo each other.
    pub broadcast proof fn lemma_bits_round_trip(bits: u8)
        ensures
            #[trigger] Self::from_bits_spec(bits).bits_spec() == bits,
    {
    }

    /// Two modes with the same byte are the same mode.
    pub proof fn lemma_bits_injective(self, other: Self)
        requires
            self.bits_spec() == other.bits_spec(),
        ensures
            self == other,
    {
    }

    /// The mode with exactly the given flags, and no other bit.
    pub open spec fn of_flags(short: bool, keep: bool, ret: bool) -> Self {
        Self::from_bits_spec(
            ((if short {
                0x20int
            } else {
                0
            }) + (if ret {
                0x40int
            } else {
                0
            }) + (if keep {
                0x80int
            } else {
                0
            })) as u8,
        )
    }

    /// The mode with exactly the given flags, and no other bit.
    pub fn from_flags(short: bool, keep: bool, ret: bool) -> (m: Self)
        ensures
            m == Self::of_flags(short, keep, ret),
            m.short() == short,
            m.keep() == keep,
            m.ret() == ret,
    {
        let mut bits: u8 = 0;
        if short {
            bits += SHORT_BIT;
        }
        if ret {
            bits += RETURN_BIT;
        }
        if keep {
            bits += KEEP_BIT;
        }
        InstructionMode { bits }
    }

    /// The mode with no flag set.
    pub fn none() -> (m: Self)
        ensures
            m.bits_spec() == 0,
            !m.short() && !m.ret() && !m.keep(),
    {
        InstructionMode { bits: 0 }
    }

    /// The Short flag alone.
    pub fn short_flag() -> (m: Self)
        ensures
            m.bits_spec() == SHORT_BIT,
            m.short() && !m.ret() && !m.keep(),
    {
        InstructionMode { bits: SHORT_BIT }
    }

    /// The Return flag alone.
    pub fn return_flag() -> (m: Self)
        ensures
            m.bits_spec() == RETURN_BIT,
            !m.short() && m.ret() && !m.keep(),
    {
        InstructionMode { bits: RETURN_BIT }
    }

    /// The Keep flag alone.
    pub fn keep_flag() -> (m: Self)
        ensures
            m.bits_spec() == KEEP_BIT,
            !m.short() && !m.ret() && m.keep(),
    {
        InstructionMode { bits: KEEP_BIT }
    }

    /// The mode held as `bits`, all eight of them.
    pub fn from_bits(bits: u8) -> (m: Self)
        ensures
            m == Self::from_bits_spec(bits),
            m.bits_spec() == bits,
    {
        InstructionMode { bits }
    }

    /// The byte this mode is held as.
    pub fn bits(&self) -> (b: u8)
        ensures
            b == self.bits_spec(),
    {
        self.bits
    }

    /// Whether every bit of `other` is set in `self`.
    pub fn contains(&self, other: Self) -> (r: bool)
        ensures
            r == (self.bits_spec() & other.bits_spec() == other.bits_spec()),
    {
        (self.bits & other.bits) == other.bits
    }

    /// Whether the Short flag is set.
    #[verifier::when_used_as_spec(short)]
    pub fn is_short(&self) -> (r: bool)
        ensures
            r == self.short(),
    {
        proof {
            lemma_flag_bits(self.bits);
        }
        (self.bits & SHORT_BIT) == SHORT_BIT
    }

    /// Whether the Return flag is set.
    #[verifier::when_used_as_spec(ret)]
    pub fn is_return(&self) -> (r: bool)
        ensures
            r == self.ret(),
    {
        proof {
            lemma_flag_bits(self.bits);
        }
        (self.bits & RETURN_BIT) == RETURN_BIT
    }

    /// Whether the Keep flag is set.
    #[verifier::when_used_as_spec(keep)]
    pub fn is_keep(&self) -> (r: bool)
        ensures
            r == self.keep(),
    {
        proof {
            lemma_flag_bits(self.bits);
        }
        (self.bits & KEEP_BIT) == KEEP_BIT
    }

    /// The mode with the bits of both.
    pub fn or(self, other: Self) -> (m: Self)
        ensures
            m == self.union(other),
            m.short() == (self.short() || other.short()),
            m.ret() == (self.ret() || other.ret()),
            m.keep() == (self.keep() || other.keep()),
    {
        proof {
            lemma_union_bits(self.bits, other.bits);
        }
        InstructionMode { bits: self.bits | other.bits }
    }

    /// The same mode with the Short flag set or cleared.
    pub fn with_short(self, short: bool) -> (m: Self)
        ensures
            m.short() == short,
            m.ret() == self.ret(),
            m.keep() == self.keep(),
    {
        let b = self.bits;
        proof {
            lemma_flag_bits(b);
            lemma_flag_bits(b | 0x20);
            lemma_flag_bits(b & 0xdf);
            assert((b | 0x20) & 0x20 == 0x20 && (b | 0x20) & 0x40 == b & 0x40 && (b | 0x20) & 0x80
                == b & 0x80 && (b & 0xdf) & 0x20 == 0 && (b & 0xdf) & 0x40 == b & 0x40 && (b
                & 0xdf) & 0x80 == b & 0x80) by (bit_vector);
        }
        if short {
            InstructionMode { bits: b | SHORT_BIT }
        } else {
            InstructionMode { bits: b & 0xdf }
        }
    }

    /// The flags that address the other stack: the Return flag inverted and
    /// nothing else set.
    pub fn opposite(self) -> (m: Self)
        ensures
            m.ret() == !self.ret(),
            !m.short(),
            !m.keep(),
            m.bits_spec() == if self.ret() { 0u8 } else { RETURN_BIT },
    {
        if self.is_return() {
            InstructionMode::none()
        } else {
            InstructionMode::return_flag()
        }
    }
}

impl vstd::std_specs::ops::BitOrSpecImpl for InstructionMode {
    open spec fn obeys_bitor_spec() -> bool {
        true
    }

    open spec fn bitor_req(self, rhs: Self) -> bool {
        true
    }

    open spec fn bitor_spec(self, rhs: Self) -> InstructionMode {
        self.union(rhs)
    }
}

impl core::ops::BitOr for InstructionMode {
    type Output = InstructionMode;

    /// The mode with the bits of both.
    fn bitor(self, rhs: Self) -> (m: InstructionMode) {
        InstructionMode { bits: self.bits | rhs.bits }
    }
}

impl vstd::std_specs::convert::FromSpecImpl<u8> for InstructionMode {
    open spec fn obeys_from_spec() -> bool {
        true
    }

    open spec fn from_spec(v: u8) -> Self {
        Self::from_bits_spec(v)
    }
}

impl core::convert::From<u8> for InstructionMode {
    /// The mode held as `v`, all eight bits of it.
    fn from(v: u8) -> (m: Self) {
        InstructionMode { bits: v }
    }
}

impl vstd::std_specs::convert::FromSpecImpl<InstructionMode> for u8 {
    open spec fn obeys_from_spec() -> bool {
        true
    }

    open spec fn from_spec(v: InstructionMode) -> Self {
        v.bits_spec()
    }
}

impl core::convert::From<InstructionMode> for u8 {
    /// The byte that `v` is held as.
    fn from(v: InstructionMode) -> (b: u8) {
        v.bits
    }
}

} // verus!
