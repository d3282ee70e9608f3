//! The condition-flags register and its one-byte encoding.

use vstd::prelude::*;
use crate::bits::{bit_of, lemma_bit_of};

verus! {

/// Bit of the encoded byte that holds the zero flag.
pub const ZERO_FLAG_BYTE_POSITION: u8 = 7;

/// Bit of the encoded byte that holds the subtract flag.
pub const SUBTRACT_FLAG_BYTE_POSITION: u8 = 6;

/// Bit of the encoded byte that holds the half-carry flag.
pub const HALF_CARRY_FLAG_BYTE_POSITION: u8 = 5;

/// Bit of the encoded byte that holds the carry flag.
pub const CARRY_FLAG_BYTE_POSITION: u8 = 4;

/// The four condition codes that instructions leave behind.
#[derive(Clone, Copy, Debug, PartialEq, Eq, Structural)]
pub struct FlagsRegister {
    pub zero: bool,
    pub subtract: bool,
    pub half_carry: bool,
    pub carry: bool,
}

impl FlagsRegister {
    /// The byte that encodes these flags: zero in bit 7, subtract in bit 6,
    /// half-carry in bit 5, carry in bit 4, and nothing in the low nibble.
    pub open spec fn spec_to_byte(self) -> u8 {
        ((if self.zero { 0x80int } else { 0 })
            + (if self.subtract { 0x40int } else { 0 })
            + (if self.half_carry { 0x20int } else { 0 })
            + (if self.carry { 0x10int } else { 0 })) as u8
    }

    /// The flags that a byte encodes. Only bits 7 to 4 are looked at.
    pub open spec fn spec_from_byte(byte: u8) -> FlagsRegister {
        FlagsRegister {
            zero: bit_of(byte, ZERO_FLAG_BYTE_POSITION),
            subtract: bit_of(byte, SUBTRACT_FLAG_BYTE_POSITION),
            half_carry: bit_of(byte, HALF_CARRY_FLAG_BYTE_POSITION),
            carry: bit_of(byte, CARRY_FLAG_BYTE_POSITION),
        }
    }

    /// Packs the flags into their byte.
    pub fn to_byte(self) -> (byte: u8)
        ensures
            byte == self.spec_to_byte(),
    {
        let z: u8 = if self.zero { 1 } else { 0 };
        let n: u8 = if self.subtract { 1 } else { 0 };
        let h: u8 = if self.half_carry { 1 } else { 0 };
        let c: u8 = if self.carry { 1 } else { 0 };
        proof {
            lemma_packed_bits(z, n, h, c);
        }
        z << ZERO_FLAG_BYTE_POSITION | n << SUBTRACT_FLAG_BYTE_POSITION | h
            << HALF_CARRY_FLAG_BYTE_POSITION | c << CARRY_FLAG_BYTE_POSITION
    }

    /// Unpacks the flags from a byte, whatever its low nibble holds.
    pub fn from_byte(byte: u8) -> (flags: FlagsRegister)
        ensures
            flags == FlagsRegister::spec_from_byte(byte),
    {
        proof {
            lemma_bit_of(byte, ZERO_FLAG_BYTE_POSITION);
            lemma_bit_of(byte, SUBTRACT_FLAG_BYTE_POSITION);
            lemma_bit_of(byte, HALF_CARRY_FLAG_BYTE_POSITION);
            lemma_bit_of(byte, CARRY_FLAG_BYTE_POSITION);
        }
        let zero = ((byte >> ZERO_FLAG_BYTE_POSITION) & 0b1) != 0;
        let subtract = ((byte >> SUBTRACT_FLAG_BYTE_POSITION) & 0b1) != 0;
        let half_carry = ((byte >> HALF_CARRY_FLAG_BYTE_POSITION) & 0b1) != 0;
        let carry = ((byte >> CARRY_FLAG_BYTE_POSITION) & 0b1) != 0;
        FlagsRegister { zero, subtract, half_carry, carry }
    }
}

impl From<FlagsRegister> for u8 {
    /// The byte that encodes `flag`, as `to_byte` gives it.
    fn from(flag: FlagsRegister) -> (byte: u8) {
        flag.to_byte()
    }
}

impl vstd::std_specs::convert::FromSpecImpl<FlagsRegister> for u8 {
    open spec fn obeys_from_spec() -> bool {
        true
    }

    open spec fn from_spec(flag: FlagsRegister) -> u8 {
        flag.spec_to_byte()
    }
}

impl From<u8> for FlagsRegister {
    /// The flags that `byte` encodes, as `from_byte` gives them.
    fn from(byte: u8) -> (flags: FlagsRegister) {
        FlagsRegister::from_byte(byte)
    }
}

impl vstd::std_specs::convert::FromSpecImpl<u8> for FlagsRegister {
    open spec fn obeys_from_spec() -> bool {
        true
    }

    open spec fn from_spec(byte: u8) -> FlagsRegister {
        FlagsRegister::spec_from_byte(byte)
    }
}

/// Four bits shifted to positions 7 to 4 and joined make the sum of their
/// weights.
proof fn lemma_packed_bits(z: u8, n: u8, h: u8, c: u8)
    by (bit_vector)
    requires
        z <= 1,
        n <= 1,
        h <= 1,
        c <= 1,
    ensures
        (z << 7u8 | n << 6u8 | h << 5u8 | c << 4u8) == z * 0x80 + n * 0x40 + h * 0x20 + c * 0x10,
{
}

/// In a byte that is a sum of the four flag weights, each of bits 7 to 4 is
/// set exactly when its weight is in the sum, and the low nibble is empty.
proof fn lemma_weights(z: bool, n: bool, h: bool, c: bool, byte: u8)
    by (bit_vector)
    requires
        byte == (if z { 0x80u8 } else { 0 }) + (if n { 0x40u8 } else { 0 })
            + (if h { 0x20u8 } else { 0 }) + (if c { 0x10u8 } else { 0 }),
    ensures
        byte & (1u8 << 7u8) != 0 <==> z,
        byte & (1u8 << 6u8) != 0 <==> n,
        byte & (1u8 << 5u8) != 0 <==> h,
        byte & (1u8 << 4u8) != 0 <==> c,
        byte & 0x0F == 0,
{
}

/// The weights of the bits 7 to 4 that are set in a byte add up to the
/// byte without its low nibble.
proof fn lemma_high_nibble(byte: u8)
    by (bit_vector)
    ensures
        (if byte & (1u8 << 7u8) != 0 { 0x80u8 } else { 0 })
            + (if byte & (1u8 << 6u8) != 0 { 0x40u8 } else { 0 })
            + (if byte & (1u8 << 5u8) != 0 { 0x20u8 } else { 0 })
            + (if byte & (1u8 << 4u8) != 0 { 0x10u8 } else { 0 }) == byte & 0xF0,
{
}

/// Decoding what was encoded gives the flags back, and an encoded byte has
/// an empty low nibble.
pub proof fn lemma_flags_round_trip(flags: FlagsRegister)
    ensures
        FlagsRegister::spec_from_byte(flags.spec_to_byte()) == flags,
        flags.spec_to_byte() & 0x0F == 0,
{
    lemma_weights(
        flags.zero,
        flags.subtract,
        flags.half_carry,
        flags.carry,
        flags.spec_to_byte(),
    );
}

/// Encoding what was decoded from a byte gives the byte with its low nibble
/// cleared.
pub proof fn lemma_byte_round_trip(byte: u8)
    ensures
        FlagsRegister::spec_from_byte(byte).spec_to_byte() == byte & 0xF0,
{
    lemma_high_nibble(byte);
}

} // verus!
