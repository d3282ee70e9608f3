//! Byte and word arithmetic shared by the register file and the engine, and
//! the facts that tie shifts and masks to it.

use vstd::prelude::*;

verus! {

/// The 16-bit value whose high byte is `high` and whose low byte is `low`.
pub open spec fn pair(high: u8, low: u8) -> u16 {
    (high * 0x100 + low) as u16
}

/// The high byte of a 16-bit value.
pub open spec fn high_byte(value: u16) -> u8 {
    (value / 0x100) as u8
}

/// The low byte of a 16-bit value.
pub open spec fn low_byte(value: u16) -> u8 {
    (value % 0x100) as u8
}

/// The sum of two bytes, wrapped to eight bits.
pub open spec fn sum8(x: u8, y: u8) -> u8 {
    ((x + y) % 0x100) as u8
}

/// The difference of two bytes, wrapped to eight bits.
pub open spec fn difference8(x: u8, y: u8) -> u8 {
    ((x - y) % 0x100) as u8
}

/// The sum of two 16-bit values, wrapped to sixteen bits.
pub open spec fn sum16(x: u16, y: u16) -> u16 {
    ((x + y) % 0x1_0000) as u16
}

/// The carry flag as the number that is added or subtracted for it.
pub open spec fn carry_bit(carry: bool) -> u8 {
    if carry {
        1
    } else {
        0
    }
}

/// Whether bit `index` of `value` is set, bit 0 being the least significant.
pub open spec fn bit_of(value: u8, index: u8) -> bool {
    value & (1u8 << index) != 0
}

/// `value` with bit `index` set.
pub open spec fn with_bit_set(value: u8, index: u8) -> u8 {
    value | (1u8 << index)
}

/// `value` with bit `index` cleared.
pub open spec fn with_bit_cleared(value: u8, index: u8) -> u8 {
    value & !(1u8 << index)
}

/// A bit can be tested in place, under a mask, or shifted down to bit 0.
pub proof fn lemma_bit_of(value: u8, index: u8)
    by (bit_vector)
    requires
        index < 8,
    ensures
        (value >> index) & 1 != 0 <==> value & (1u8 << index) != 0,
{
}

/// Masking with `0xF` keeps the low nibble, which is the value modulo 16.
pub proof fn lemma_low_nibble(value: u8)
    by (bit_vector)
    ensures
        value & 0xF == value % 16,
{
}

/// Masking a word with `0xFFF` keeps its low twelve bits.
pub proof fn lemma_low_twelve_bits(value: u16)
    by (bit_vector)
    ensures
        value & 0xFFF == value % 0x1000,
{
}

/// Shifting a byte right by one halves it; the bit that leaves is its parity.
pub proof fn lemma_shift_right(value: u8)
    by (bit_vector)
    ensures
        value >> 1u8 == value / 2,
        value & 1 != 0 <==> value % 2 == 1,
        value & 1 == value % 2,
{
}

/// Shifting a byte left by one doubles it modulo 256.
pub proof fn lemma_shift_left(value: u8)
    by (bit_vector)
    ensures
        value << 1u8 == (value * 2) % 0x100,
{
}

/// Shifting a byte right by seven leaves its top bit, which is set exactly
/// when the byte is 128 or more.
pub proof fn lemma_top_bit(value: u8)
    by (bit_vector)
    ensures
        value >> 7u8 == value / 0x80,
        value >> 7u8 != 0 <==> value >= 0x80,
{
}

/// A bit placed in position 7 of a halved byte adds 128 times that bit.
pub proof fn lemma_insert_high_bit(value: u8, bit: u8)
    by (bit_vector)
    requires
        bit <= 1,
    ensures
        (value >> 1u8) | (bit << 7u8) == value / 2 + bit * 0x80,
{
}

/// A bit placed in position 0 of a doubled byte adds that bit.
pub proof fn lemma_insert_low_bit(value: u8, bit: u8)
    by (bit_vector)
    requires
        bit <= 1,
    ensures
        (value << 1u8) | bit == (value * 2) % 0x100 + bit,
{
}

/// Two bytes joined by shift and or make the word `high * 256 + low`.
pub proof fn lemma_join_bytes(high: u8, low: u8)
    by (bit_vector)
    ensures
        (high as u16) << 8u16 | (low as u16) == high * 0x100 + low,
{
}

/// Mask and shift split a word into its quotient and remainder by 256.
pub proof fn lemma_split_word(value: u16)
    by (bit_vector)
    ensures
        (value & 0xFF00) >> 8u16 == value / 0x100,
        value & 0xFF == value % 0x100,
{
}

} // verus!
