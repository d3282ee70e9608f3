//! The register file: seven 8-bit registers and the flags, with the four
//! 16-bit pairs read and written through them.

use vstd::prelude::*;
use crate::bits::{high_byte, lemma_join_bytes, lemma_split_word, low_byte, pair};
use crate::flags::{lemma_byte_round_trip, lemma_flags_round_trip, FlagsRegister};
use crate::instruction::ArithmeticTarget;

verus! {

/// The eight slots of the register file. The 16-bit pairs `bc`, `de`, `hl`
/// and `af` have no storage of their own: each is two of these slots, high
/// byte first.
#[derive(Clone, Copy, Debug, PartialEq, Eq, Structural)]
pub struct Registers {
    pub a: u8,
    pub b: u8,
    pub c: u8,
    pub d: u8,
    pub e: u8,
    pub f: FlagsRegister,
    pub h: u8,
    pub l: u8,
}

impl Registers {
    /// The register that `target` selects.
    pub open spec fn spec_read(self, target: ArithmeticTarget) -> u8 {
        match target {
            ArithmeticTarget::A => self.a,
            ArithmeticTarget::B => self.b,
            ArithmeticTarget::C => self.c,
            ArithmeticTarget::D => self.d,
            ArithmeticTarget::E => self.e,
            ArithmeticTarget::H => self.h,
            ArithmeticTarget::L => self.l,
        }
    }

    /// The register file with `value` in the register that `target` selects
    /// and every other slot as it was.
    pub open spec fn spec_write(self, target: ArithmeticTarget, value: u8) -> Registers {
        match target {
            ArithmeticTarget::A => Registers { a: value, ..self },
            ArithmeticTarget::B => Registers { b: value, ..self },
            ArithmeticTarget::C => Registers { c: value, ..self },
            ArithmeticTarget::D => Registers { d: value, ..self },
            ArithmeticTarget::E => Registers { e: value, ..self },
            ArithmeticTarget::H => Registers { h: value, ..self },
            ArithmeticTarget::L => Registers { l: value, ..self },
        }
    }

    /// The pair `bc`: `b` is its high byte, `c` its low byte.
    pub open spec fn spec_get_bc(self) -> u16 {
        pair(self.b, self.c)
    }

    /// The register file after `value` is written to the pair `bc`.
    pub open spec fn spec_set_bc(self, value: u16) -> Registers {
        Registers { b: high_byte(value), c: low_byte(value), ..self }
    }

    /// Reads the pair `bc`.
    pub fn get_bc(&self) -> (value: u16)
        ensures
            value == self.spec_get_bc(),
    {
        proof {
            lemma_join_bytes(self.b, self.c);
        }
        (self.b as u16) << 8 | self.c as u16
    }

    /// Writes the pair `bc`: the high byte of `value` to `b`, the low byte
    /// to `c`.
    pub fn set_bc(&mut self, value: u16)
        ensures
            *final(self) == old(self).spec_set_bc(value),
    {
        proof {
            lemma_split_word(value);
        }
        self.b = ((value & 0xFF00) >> 8) as u8;
        self.c = (value & 0xFF) as u8;
    }

    /// The pair `af`: the accumulator is its high byte, the encoded flags
    /// its low byte.
    pub open spec fn spec_get_af(self) -> u16 {
        pair(self.a, self.f.spec_to_byte())
    }

    /// The register file after `value` is written to the pair `af`. The
    /// flags are decoded from the low byte, whose low nibble is dropped.
    pub open spec fn spec_set_af(self, value: u16) -> Registers {
        Registers {
            a: high_byte(value),
            f: FlagsRegister::spec_from_byte(low_byte(value)),
            ..self
        }
    }

    /// Reads the pair `af`.
    pub fn get_af(&self) -> (value: u16)
        ensures
            value == self.spec_get_af(),
    {
        let flags = u8::from(self.f);
        proof {
            lemma_join_bytes(self.a, flags);
        }
        (self.a as u16) << 8 | flags as u16
    }

    /// Writes the pair `af`: the high byte of `value` to the accumulator,
    /// the flags that its low byte encodes to the flags register.
    pub fn set_af(&mut self, value: u16)
        ensures
            *final(self) == old(self).spec_set_af(value),
    {
        proof {
            lemma_split_word(value);
        }
        self.a = ((value & 0xFF00) >> 8) as u8;
        self.f = FlagsRegister::from((value & 0xFF) as u8);
    }

    /// The pair `de`: `d` is its high byte, `e` its low byte.
    pub open spec fn spec_get_de(self) -> u16 {
        pair(self.d, self.e)
    }

    /// The register file after `value` is written to the pair `de`.
    pub open spec fn spec_set_de(self, value: u16) -> Registers {
        Registers { d: high_byte(value), e: low_byte(value), ..self }
    }

    /// Reads the pair `de`.
    pub fn get_de(&self) -> (value: u16)
        ensures
            value == self.spec_get_de(),
    {
        proof {
            lemma_join_bytes(self.d, self.e);
        }
        (self.d as u16) << 8 | self.e as u16
    }

    /// Writes the pair `de`: the high byte of `value` to `d`, the low byte
    /// to `e`.
    pub fn set_de(&mut self, value: u16)
        ensures
            *final(self) == old(self).spec_set_de(value),
    {
        proof {
            lemma_split_word(value);
        }
        self.d = ((value & 0xFF00) >> 8) as u8;
        self.e = (value & 0xFF) as u8;
    }

    /// The pair `hl`: `h` is its high byte, `l` its low byte.
    pub open spec fn spec_get_hl(self) -> u16 {
        pair(self.h, self.l)
    }

    /// The register file after `value` is written to the pair `hl`.
    pub open spec fn spec_set_hl(self, value: u16) -> Registers {
        Registers { h: high_byte(value), l: low_byte(value), ..self }
    }

    /// Reads the pair `hl`.
    pub fn get_hl(&self) -> (value: u16)
        ensures
            value == self.spec_get_hl(),
    {
        proof {
            lemma_join_bytes(self.h, self.l);
        }
        (self.h as u16) << 8 | self.l as u16
    }

    /// Writes the pair `hl`: the high byte of `value` to `h`, the low byte
    /// to `l`.
    pub fn set_hl(&mut self, value: u16)
        ensures
            *final(self) == old(self).spec_set_hl(value),
    {
        proof {
            lemma_split_word(value);
        }
        self.h = ((value & 0xFF00) >> 8) as u8;
        self.l = (value & 0xFF) as u8;
    }

    /// Reads the register that `target` selects.
    pub fn read(&self, target: ArithmeticTarget) -> (value: u8)
        ensures
            value == self.spec_read(target),
    {
        match target {
            ArithmeticTarget::A => self.a,
            ArithmeticTarget::B => self.b,
            ArithmeticTarget::C => self.c,
            ArithmeticTarget::D => self.d,
            ArithmeticTarget::E => self.e,
            ArithmeticTarget::H => self.h,
            ArithmeticTarget::L => self.l,
        }
    }

    /// Writes `value` to the register that `target` selects.
    pub fn write(&mut self, target: ArithmeticTarget, value: u8)
        ensures
            *final(self) == old(self).spec_write(target, value),
    {
        match target {
            ArithmeticTarget::A => {
                self.a = value;
            },
            ArithmeticTarget::B => {
                self.b = value;
            },
            ArithmeticTarget::C => {
                self.c = value;
            },
            ArithmeticTarget::D => {
                self.d = value;
            },
            ArithmeticTarget::E => {
                self.e = value;
            },
            ArithmeticTarget::H => {
                self.h = value;
            },
            ArithmeticTarget::L => {
                self.l = value;
            },
        }
    }
}

/// Mask and shift agree with quotient and remainder on a word whose low
/// nibble is cleared.
proof fn lemma_clear_low_nibble(value: u16)
    by (bit_vector)
    ensures
        (value / 0x100) * 0x100 + (((value % 0x100) as u8) & 0xF0) == value & 0xFFF0,
{
}

/// A value written to `bc`, `de` or `hl` is the value read back from it.
pub proof fn lemma_pair_round_trip(r: Registers, value: u16)
    ensures
        r.spec_set_bc(value).spec_get_bc() == value,
        r.spec_set_de(value).spec_get_de() == value,
        r.spec_set_hl(value).spec_get_hl() == value,
{
}

/// A value written to `af` is read back with its low nibble cleared: the
/// flags keep bits 7 to 4 only.
pub proof fn lemma_af_round_trip(r: Registers, value: u16)
    ensures
        r.spec_set_af(value).spec_get_af() == value & 0xFFF0,
{
    lemma_byte_round_trip(low_byte(value));
    lemma_clear_low_nibble(value);
}

/// Writing a pair touches its two registers and no other slot, and writing
/// back what was read changes nothing.
pub proof fn lemma_pair_is_its_registers(r: Registers, value: u16)
    ensures
        r.spec_set_bc(value) == (Registers { b: high_byte(value), c: low_byte(value), ..r }),
        r.spec_set_de(value) == (Registers { d: high_byte(value), e: low_byte(value), ..r }),
        r.spec_set_hl(value) == (Registers { h: high_byte(value), l: low_byte(value), ..r }),
        r.spec_set_bc(r.spec_get_bc()) == r,
        r.spec_set_de(r.spec_get_de()) == r,
        r.spec_set_hl(r.spec_get_hl()) == r,
        r.spec_set_af(r.spec_get_af()) == r,
{
    lemma_flags_round_trip(r.f);
}

} // verus!
