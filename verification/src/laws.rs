//! Laws that relate instructions to one another, proved of `step`.

use vstd::prelude::*;
use crate::bits::{bit_of, carry_bit, difference8, sum8, with_bit_cleared, with_bit_set};
use crate::flags::FlagsRegister;
use crate::instruction::{ArithmeticTarget, Instruction};
use crate::registers::Registers;
use crate::semantics::{logic_flags, step};

verus! {

/// The identities of `&`, `|` and `^` on a byte that the logic laws need.
proof fn lemma_logic_identities(value: u8)
    by (bit_vector)
    ensures
        value ^ value == 0,
        value | 0 == value,
        value | 0xFF == 0xFF,
        value & 0xFF == value,
        value & 0 == 0,
{
}

/// A bit that was set tests as set, one that was cleared tests as clear.
proof fn lemma_bit_after_write(value: u8, index: u8)
    by (bit_vector)
    requires
        index < 8,
    ensures
        (value | (1u8 << index)) & (1u8 << index) != 0,
        (value & !(1u8 << index)) & (1u8 << index) == 0,
{
}

/// Wrapping up by one and then down by one gives the byte back.
proof fn lemma_up_then_down(value: u8)
    ensures
        difference8(sum8(value, 1), 1) == value,
{
    if value == 0xFF {
        assert(sum8(value, 1) == 0);
    } else {
        assert(sum8(value, 1) == value + 1);
    }
}

/// Two wrapped additions in a row are one addition of three, wrapped; and
/// so for subtraction.
proof fn lemma_two_steps(x: u8, y: u8, z: u8)
    ensures
        sum8(sum8(x, y), z) == (x + y + z) % 0x100,
        difference8(difference8(x, y), z) == (x - y - z) % 0x100,
{
    if x + y >= 0x100 {
        assert(sum8(x, y) == x + y - 0x100);
    } else {
        assert(sum8(x, y) == x + y);
    }
    if x - y < 0 {
        assert(difference8(x, y) == x - y + 0x100);
    } else {
        assert(difference8(x, y) == x - y);
    }
}

/// `INC` followed by `DEC` on the same register restores every register;
/// only the flags may differ. This holds of every value, 0 and 255
/// included, since both steps wrap.
pub proof fn lemma_inc_then_dec(r: Registers, target: ArithmeticTarget)
    ensures
        step(step(r, Instruction::INC(target)), Instruction::DEC(target)).spec_read(target)
            == r.spec_read(target),
        (Registers {
            f: r.f,
            ..step(step(r, Instruction::INC(target)), Instruction::DEC(target))
        }) == r,
{
    lemma_up_then_down(r.spec_read(target));
    let up = step(r, Instruction::INC(target));
    assert(up.spec_read(target) == sum8(r.spec_read(target), 1));
}

/// `XOR` of the accumulator with itself clears it and sets the zero flag,
/// whatever it held.
pub proof fn lemma_xor_self(r: Registers)
    ensures
        step(r, Instruction::XOR(ArithmeticTarget::A)).a == 0,
        step(r, Instruction::XOR(ArithmeticTarget::A)).f == logic_flags(0, false),
        step(r, Instruction::XOR(ArithmeticTarget::A)).f.zero,
{
    lemma_logic_identities(r.a);
}

/// `OR` with a register that holds `0x00` and `AND` with one that holds
/// `0xFF` leave the accumulator as it was.
pub proof fn lemma_logic_neutral(r: Registers, target: ArithmeticTarget)
    ensures
        r.spec_read(target) == 0x00 ==> step(r, Instruction::OR(target)).a == r.a,
        r.spec_read(target) == 0xFF ==> step(r, Instruction::AND(target)).a == r.a,
{
    lemma_logic_identities(r.a);
}

/// `AND` with a register that holds `0x00` gives 0 with the zero and
/// half-carry flags set and the other two clear; `OR` with one that holds
/// `0xFF` gives `0xFF`.
pub proof fn lemma_logic_absorbing(r: Registers, target: ArithmeticTarget)
    ensures
        r.spec_read(target) == 0x00 ==> {
            &&& step(r, Instruction::AND(target)).a == 0
            &&& step(r, Instruction::AND(target)).f == (FlagsRegister {
                zero: true,
                subtract: false,
                half_carry: true,
                carry: false,
            })
        },
        r.spec_read(target) == 0xFF ==> step(r, Instruction::OR(target)).a == 0xFF,
{
    lemma_logic_identities(r.a);
}

/// After `AND`, `OR` or `XOR` the zero flag tells whether the accumulator
/// is 0, and subtract and carry are clear.
pub proof fn lemma_logic_zero_flag(r: Registers, target: ArithmeticTarget)
    ensures
        step(r, Instruction::AND(target)).f.zero == (step(r, Instruction::AND(target)).a == 0),
        step(r, Instruction::OR(target)).f.zero == (step(r, Instruction::OR(target)).a == 0),
        step(r, Instruction::XOR(target)).f.zero == (step(r, Instruction::XOR(target)).a == 0),
        !step(r, Instruction::AND(target)).f.subtract && !step(r, Instruction::AND(target)).f.carry,
        !step(r, Instruction::OR(target)).f.subtract && !step(r, Instruction::OR(target)).f.carry,
        !step(r, Instruction::XOR(target)).f.subtract && !step(r, Instruction::XOR(target)).f.carry,
{
}

/// `BIT` after `SET` of the same bit reports it set (zero flag clear);
/// `BIT` after `RES` reports it clear (zero flag set).
pub proof fn lemma_bit_after_set_and_res(r: Registers, target: ArithmeticTarget, bit: u8)
    requires
        bit < 8,
    ensures
        !step(step(r, Instruction::SET(target, bit)), Instruction::BIT(target, bit)).f.zero,
        step(step(r, Instruction::RES(target, bit)), Instruction::BIT(target, bit)).f.zero,
{
    lemma_bit_after_write(r.spec_read(target), bit);
    assert(bit_of(with_bit_set(r.spec_read(target), bit), bit));
    assert(!bit_of(with_bit_cleared(r.spec_read(target), bit), bit));
}

/// `BIT` changes no register, and of the flags it leaves carry alone.
pub proof fn lemma_bit_reads_only(r: Registers, target: ArithmeticTarget, bit: u8)
    ensures
        (Registers { f: r.f, ..step(r, Instruction::BIT(target, bit)) }) == r,
        step(r, Instruction::BIT(target, bit)).spec_read(target) == r.spec_read(target),
        step(r, Instruction::BIT(target, bit)).f.carry == r.f.carry,
{
}

/// `SET` and `RES` change the register they name and nothing else: no
/// other register and no flag.
pub proof fn lemma_set_and_res_touch_one_register(
    r: Registers,
    target: ArithmeticTarget,
    bit: u8,
)
    ensures
        step(r, Instruction::SET(target, bit)) == r.spec_write(
            target,
            step(r, Instruction::SET(target, bit)).spec_read(target),
        ),
        step(r, Instruction::RES(target, bit)) == r.spec_write(
            target,
            step(r, Instruction::RES(target, bit)).spec_read(target),
        ),
{
}

/// `CP` changes no register: the accumulator and the register compared
/// with it are as they were, and only the flags are new.
pub proof fn lemma_compare_reads_only(r: Registers, target: ArithmeticTarget)
    ensures
        (Registers { f: r.f, ..step(r, Instruction::CP(target)) }) == r,
{
}

/// `ADC` leaves `a + value + carry` in the accumulator and `SBC` leaves
/// `a - value - carry`, both wrapped to eight bits, where `carry` is the
/// carry flag before the instruction.
pub proof fn lemma_carry_arithmetic(r: Registers, target: ArithmeticTarget)
    ensures
        step(r, Instruction::ADC(target)).a == (r.a + r.spec_read(target) + carry_bit(r.f.carry))
            % 0x100,
        step(r, Instruction::SBC(target)).a == (r.a - r.spec_read(target) - carry_bit(r.f.carry))
            % 0x100,
{
    lemma_two_steps(r.a, r.spec_read(target), carry_bit(r.f.carry));
}

/// The register rotates and shifts that the engine only accepts change
/// nothing at all.
pub proof fn lemma_placeholders_change_nothing(r: Registers, instruction: Instruction)
    requires
        instruction.placeholder(),
    ensures
        step(r, instruction) == r,
{
}

} // verus!
