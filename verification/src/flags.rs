//! The status flags and their packed form.
//!
//! Four flags live in the high nibble of a byte: zero in bit 7, subtract in
//! bit 6, half-carry in bit 5 and carry in bit 4. Bits 3 to 0 carry nothing:
//! encoding clears them and decoding ignores them.

use vstd::prelude::*;
use vstd::std_specs::convert::FromSpecImpl;

verus! {

/// Bit position of the zero flag.
pub const ZERO_FLAG_BYTE_POSITION: u8 = 7;

/// Bit position of the subtract flag.
pub const SUBTRACT_FLAG_BYTE_POSITION: u8 = 6;

/// Bit position of the half-carry flag.
pub const HALF_CARRY_FLAG_BYTE_POSITION: u8 = 5;

/// Bit position of the carry flag.
pub const CARRY_FLAG_BYTE_POSITION: u8 = 4;

/// The four status flags, as booleans.
#[derive(Clone, Copy, Debug, PartialEq, Eq, Structural)]
pub struct FlagsRegister {
    pub zero: bool,
    pub subtract: bool,
    pub half_carry: bool,
    pub carry: bool,
}

/// Whether the bit of `byte` at `position` is 1, bit 0 being the least
/// significant.
pub open spec fn bit_is_set(byte: u8, position: u8) -> bool {
    (byte >> position) & 1 == 1
}

/// The byte in which each flag that is set contributes the place value of
/// its bit, and nothing else does.
pub open spec fn packed(zero: bool, subtract: bool, half_carry: bool, carry: bool) -> u8 {
    ((if zero { 128int } else { 0 })
        + (if subtract { 64int } else { 0 })
        + (if half_carry { 32int } else { 0 })
        + (if carry { 16int } else { 0 })) as u8
}

impl FlagsRegister {
    /// The packed form of these flags.
    pub open spec fn encoded(self) -> u8 {
        packed(self.zero, self.subtract, self.half_carry, self.carry)
    }

    /// The flags that `byte` stands for: each flag is the binary digit of
    /// `byte` at the flag's place. The four low digits play no part.
    pub open spec fn decoded(byte: u8) -> FlagsRegister {
        FlagsRegister {
            zero: byte / 128 % 2 == 1,
            subtract: byte / 64 % 2 == 1,
            half_carry: byte / 32 % 2 == 1,
            carry: byte / 16 % 2 == 1,
        }
    }

    /// Packs the flags into a byte.
    pub fn encode(self) -> (byte: u8)
        ensures
            byte == self.encoded(),
            byte & 0x0F == 0,
    {
        let zero: u8 = if self.zero { 1 } else { 0 };
        let subtract: u8 = if self.subtract { 1 } else { 0 };
        let half_carry: u8 = if self.half_carry { 1 } else { 0 };
        let carry: u8 = if self.carry { 1 } else { 0 };
        assert(zero << ZERO_FLAG_BYTE_POSITION | subtract << SUBTRACT_FLAG_BYTE_POSITION
            | half_carry << HALF_CARRY_FLAG_BYTE_POSITION | carry << CARRY_FLAG_BYTE_POSITION
            == 128 * zero + 64 * subtract + 32 * half_carry + 16 * carry) by (bit_vector)
            requires
                zero <= 1,
                subtract <= 1,
                half_carry <= 1,
                carry <= 1,
        ;
        proof {
            lemma_encoded_bits(self);
        }
        zero << ZERO_FLAG_BYTE_POSITION | subtract << SUBTRACT_FLAG_BYTE_POSITION
            | half_carry << HALF_CARRY_FLAG_BYTE_POSITION | carry << CARRY_FLAG_BYTE_POSITION
    }

    /// Reads the flags out of a byte.
    pub fn decode(byte: u8) -> (flags: FlagsRegister)
        ensures
            flags == Self::decoded(byte),
    {
        proof {
            lemma_bit_is_digit(byte);
        }
        let zero = ((byte >> ZERO_FLAG_BYTE_POSITION) & 0b1) != 0;
        let subtract = ((byte >> SUBTRACT_FLAG_BYTE_POSITION) & 0b1) != 0;
        let half_carry = ((byte >> HALF_CARRY_FLAG_BYTE_POSITION) & 0b1) != 0;
        let carry = ((byte >> CARRY_FLAG_BYTE_POSITION) & 0b1) != 0;

        FlagsRegister { zero, subtract, half_carry, carry }
    }
}

/// The conversion from flags to a byte is `encode`.
impl From<FlagsRegister> for u8 {
    fn from(flag: FlagsRegister) -> (byte: u8) {
        flag.encode()
    }
}

impl FromSpecImpl<FlagsRegister> for u8 {
    open spec fn obeys_from_spec() -> bool {
        true
    }

    open spec fn from_spec(flag: FlagsRegister) -> u8 {
        flag.encoded()
    }
}

/// The conversion from a byte to flags is `decode`.
impl From<u8> for FlagsRegister {
    fn from(byte: u8) -> (flags: FlagsRegister) {
        FlagsRegister::decode(byte)
    }
}

impl FromSpecImpl<u8> for FlagsRegister {
    open spec fn obeys_from_spec() -> bool {
        true
    }

    open spec fn from_spec(byte: u8) -> FlagsRegister {
        FlagsRegister::decoded(byte)
    }
}

/// Decoding what was encoded gives the flags back.
pub proof fn lemma_decode_encode(flags: FlagsRegister)
    ensures
        FlagsRegister::decoded(flags.encoded()) == flags,
{
}

/// Encoding what was decoded gives the byte back, where the byte's four low
/// bits are zero.
pub proof fn lemma_encode_decode(byte: u8)
    requires
        byte & 0x0F == 0,
    ensures
        FlagsRegister::decoded(byte).encoded() == byte,
{
    lemma_encode_decode_keeps_high_nibble(byte);
    assert(byte & 0xF0 == byte) by (bit_vector)
        requires
            byte & 0x0F == 0,
    ;
}

/// Encoding what was decoded keeps the four high bits of the byte and clears
/// the four low ones.
pub proof fn lemma_encode_decode_keeps_high_nibble(byte: u8)
    ensures
        FlagsRegister::decoded(byte).encoded() == byte & 0xF0,
        FlagsRegister::decoded(byte).encoded() & 0x0F == 0,
{
    assert(packed(byte / 128 % 2 == 1, byte / 64 % 2 == 1, byte / 32 % 2 == 1, byte / 16 % 2 == 1)
        == byte & 0xF0) by (bit_vector);
    assert((byte & 0xF0) & 0x0F == 0) by (bit_vector);
}

/// Two bytes that agree in their four high bits decode to the same flags,
/// whatever their four low bits are.
pub proof fn lemma_decode_ignores_low_nibble(byte: u8, other: u8)
    requires
        byte & 0xF0 == other & 0xF0,
    ensures
        FlagsRegister::decoded(byte) == FlagsRegister::decoded(other),
{
    assert(byte / 128 % 2 == other / 128 % 2 && byte / 64 % 2 == other / 64 % 2
        && byte / 32 % 2 == other / 32 % 2 && byte / 16 % 2 == other / 16 % 2) by (bit_vector)
        requires
            byte & 0xF0 == other & 0xF0,
    ;
}

/// The four low bits of an encoded byte are zero, and each of its four high
/// bits is set exactly when the flag of that position is.
pub proof fn lemma_encoded_bits(flags: FlagsRegister)
    ensures
        flags.encoded() & 0x0F == 0,
        bit_is_set(flags.encoded(), ZERO_FLAG_BYTE_POSITION) == flags.zero,
        bit_is_set(flags.encoded(), SUBTRACT_FLAG_BYTE_POSITION) == flags.subtract,
        bit_is_set(flags.encoded(), HALF_CARRY_FLAG_BYTE_POSITION) == flags.half_carry,
        bit_is_set(flags.encoded(), CARRY_FLAG_BYTE_POSITION) == flags.carry,
{
    let (z, n, h, c) = (flags.zero, flags.subtract, flags.half_carry, flags.carry);
    assert(packed(z, n, h, c) & 0x0F == 0) by (bit_vector);
    assert(bit_is_set(packed(z, n, h, c), ZERO_FLAG_BYTE_POSITION) == z) by (bit_vector);
    assert(bit_is_set(packed(z, n, h, c), SUBTRACT_FLAG_BYTE_POSITION) == n) by (bit_vector);
    assert(bit_is_set(packed(z, n, h, c), HALF_CARRY_FLAG_BYTE_POSITION) == h) by (bit_vector);
    assert(bit_is_set(packed(z, n, h, c), CARRY_FLAG_BYTE_POSITION) == c) by (bit_vector);
}

/// Each decoded flag is the bit of the byte at the flag's position.
pub proof fn lemma_decoded_bits(byte: u8)
    ensures
        FlagsRegister::decoded(byte).zero == bit_is_set(byte, ZERO_FLAG_BYTE_POSITION),
        FlagsRegister::decoded(byte).subtract == bit_is_set(byte, SUBTRACT_FLAG_BYTE_POSITION),
        FlagsRegister::decoded(byte).half_carry == bit_is_set(byte, HALF_CARRY_FLAG_BYTE_POSITION),
        FlagsRegister::decoded(byte).carry == bit_is_set(byte, CARRY_FLAG_BYTE_POSITION),
{
    lemma_bit_is_digit(byte);
}

/// In each of the four flag positions, the bit of a byte is its binary digit
/// at that place.
pub proof fn lemma_bit_is_digit(byte: u8)
    ensures
        (byte >> ZERO_FLAG_BYTE_POSITION) & 1 == byte / 128 % 2,
        (byte >> SUBTRACT_FLAG_BYTE_POSITION) & 1 == byte / 64 % 2,
        (byte >> HALF_CARRY_FLAG_BYTE_POSITION) & 1 == byte / 32 % 2,
        (byte >> CARRY_FLAG_BYTE_POSITION) & 1 == byte / 16 % 2,
{
    assert((byte >> ZERO_FLAG_BYTE_POSITION) & 1 == byte / 128 % 2) by (bit_vector);
    assert((byte >> SUBTRACT_FLAG_BYTE_POSITION) & 1 == byte / 64 % 2) by (bit_vector);
    assert((byte >> HALF_CARRY_FLAG_BYTE_POSITION) & 1 == byte / 32 % 2) by (bit_vector);
    assert((byte >> CARRY_FLAG_BYTE_POSITION) & 1 == byte / 16 % 2) by (bit_vector);
}

} // verus!
