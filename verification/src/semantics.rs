//! What each instruction does, as a function from the register file before
//! it to the register file after it.
//!
//! Arithmetic is stated over the integers and wrapped to the width of the
//! register. Carry and half-carry are stated from the operands: whether
//! their sum leaves the width, whether one is less than the other.

use vstd::prelude::*;
use crate::bits::{
    bit_of, carry_bit, difference8, sum16, sum8, with_bit_cleared, with_bit_set,
};
use crate::flags::FlagsRegister;
use crate::instruction::Instruction;
use crate::registers::Registers;

verus! {

/// Flags after the 8-bit addition `x + y`: carry when the sum leaves eight
/// bits, half-carry when the sum of the low nibbles leaves four.
pub open spec fn add_flags(x: u8, y: u8) -> FlagsRegister {
    FlagsRegister {
        zero: sum8(x, y) == 0,
        subtract: false,
        half_carry: x % 16 + y % 16 > 0xF,
        carry: x + y > 0xFF,
    }
}

/// Flags after the 8-bit subtraction `x - y`: carry when it borrows, that
/// is when `x < y`; half-carry when the low nibbles borrow.
pub open spec fn sub_flags(x: u8, y: u8) -> FlagsRegister {
    FlagsRegister {
        zero: difference8(x, y) == 0,
        subtract: true,
        half_carry: x % 16 < y % 16,
        carry: x < y,
    }
}

/// Flags after a byte is added to the 16-bit pair `hl`: carry when the sum
/// leaves sixteen bits, half-carry on a carry out of bit 11.
pub open spec fn add16_flags(hl: u16, y: u8) -> FlagsRegister {
    FlagsRegister {
        zero: sum16(hl, y as u16) == 0,
        subtract: false,
        half_carry: hl % 0x1000 + y > 0xFFF,
        carry: hl + y > 0xFFFF,
    }
}

/// Flags after `AND`, `OR` or `XOR` left `result` in the accumulator.
/// `AND` sets half-carry, the other two clear it.
pub open spec fn logic_flags(result: u8, half_carry: bool) -> FlagsRegister {
    FlagsRegister { zero: result == 0, subtract: false, half_carry, carry: false }
}

/// Flags after the accumulator `x` is compared with `y`: zero when they
/// are equal, carry when `x < y`, subtract when the low nibbles of the
/// unseen subtraction `x - y` borrow, half-carry never.
pub open spec fn compare_flags(x: u8, y: u8) -> FlagsRegister {
    FlagsRegister { zero: x == y, subtract: x % 16 < y % 16, half_carry: false, carry: x < y }
}

/// Flags after a register that held `value` is incremented. Half-carry
/// looks at the value before the increment; carry stays as it was.
pub open spec fn increment_flags(value: u8, before: FlagsRegister) -> FlagsRegister {
    FlagsRegister {
        zero: sum8(value, 1) == 0,
        subtract: false,
        half_carry: value % 16 == 0xF,
        carry: before.carry,
    }
}

/// Flags after a register that held `value` is decremented. Half-carry
/// looks at the value before the decrement; carry stays as it was.
pub open spec fn decrement_flags(value: u8, before: FlagsRegister) -> FlagsRegister {
    FlagsRegister {
        zero: difference8(value, 1) == 0,
        subtract: true,
        half_carry: value % 16 == 0,
        carry: before.carry,
    }
}

/// Flags after a rotate of the accumulator: only carry can be set.
pub open spec fn rotate_flags(carry: bool) -> FlagsRegister {
    FlagsRegister { zero: false, subtract: false, half_carry: false, carry }
}

/// Flags after a shift left `result` in the register and moved `carry` out.
pub open spec fn shift_flags(result: u8, carry: bool) -> FlagsRegister {
    FlagsRegister { zero: result == 0, subtract: false, half_carry: false, carry }
}

/// `value` shifted right by one bit: half of it, rounded down.
pub open spec fn halved(value: u8) -> u8 {
    value / 2
}

/// `value` shifted left by one bit: twice the value, wrapped to eight bits.
pub open spec fn doubled(value: u8) -> u8 {
    ((value * 2) % 0x100) as u8
}

/// `value` shifted right by one bit, with `carry` coming in as bit 7.
pub open spec fn rotated_right(value: u8, carry: bool) -> u8 {
    (halved(value) + carry_bit(carry) * 0x80) as u8
}

/// `value` shifted left by one bit, with `carry` coming in as bit 0.
pub open spec fn rotated_left(value: u8, carry: bool) -> u8 {
    (doubled(value) + carry_bit(carry)) as u8
}

/// The bit that a shift or rotate to the right moves out of `value`.
pub open spec fn low_bit(value: u8) -> bool {
    value % 2 == 1
}

/// The bit that a shift or rotate to the left moves out of `value`.
pub open spec fn high_bit(value: u8) -> bool {
    value >= 0x80
}

/// The register file after `instruction` is executed on `r`.
///
/// `ADC` and `SBC` are two 8-bit steps: first the operand, then the carry
/// flag as it stood before the instruction. The flags they leave are those
/// of the second step, so a carry or borrow of the first step alone is not
/// recorded. `CP` leaves every register as it was. The instructions for
/// which `placeholder` holds leave everything as it was.
pub open spec fn step(r: Registers, instruction: Instruction) -> Registers {
    match instruction {
        Instruction::ADD(target) => {
            let value = r.spec_read(target);
            Registers { a: sum8(r.a, value), f: add_flags(r.a, value), ..r }
        },
        Instruction::ADDHL(target) => {
            let value = r.spec_read(target);
            let hl = r.spec_get_hl();
            Registers { f: add16_flags(hl, value), ..r }.spec_set_hl(sum16(hl, value as u16))
        },
        Instruction::ADC(target) => {
            let value = r.spec_read(target);
            let carry = carry_bit(r.f.carry);
            let first = sum8(r.a, value);
            Registers { a: sum8(first, carry), f: add_flags(first, carry), ..r }
        },
        Instruction::SUB(target) => {
            let value = r.spec_read(target);
            Registers { a: difference8(r.a, value), f: sub_flags(r.a, value), ..r }
        },
        Instruction::SBC(target) => {
            let value = r.spec_read(target);
            let carry = carry_bit(r.f.carry);
            let first = difference8(r.a, value);
            Registers { a: difference8(first, carry), f: sub_flags(first, carry), ..r }
        },
        Instruction::AND(target) => {
            let result = r.a & r.spec_read(target);
            Registers { a: result, f: logic_flags(result, true), ..r }
        },
        Instruction::OR(target) => {
            let result = r.a | r.spec_read(target);
            Registers { a: result, f: logic_flags(result, false), ..r }
        },
        Instruction::XOR(target) => {
            let result = r.a ^ r.spec_read(target);
            Registers { a: result, f: logic_flags(result, false), ..r }
        },
        Instruction::CP(target) => Registers { f: compare_flags(r.a, r.spec_read(target)), ..r },
        Instruction::INC(target) => {
            let value = r.spec_read(target);
            Registers { f: increment_flags(value, r.f), ..r }.spec_write(target, sum8(value, 1))
        },
        Instruction::DEC(target) => {
            let value = r.spec_read(target);
            Registers { f: decrement_flags(value, r.f), ..r }.spec_write(
                target,
                difference8(value, 1),
            )
        },
        Instruction::CCF() => Registers {
            f: FlagsRegister { subtract: false, half_carry: false, carry: !r.f.carry, ..r.f },
            ..r
        },
        Instruction::SCF() => Registers {
            f: FlagsRegister { subtract: false, half_carry: false, carry: true, ..r.f },
            ..r
        },
        Instruction::RRA() => Registers {
            a: rotated_right(r.a, r.f.carry),
            f: rotate_flags(low_bit(r.a)),
            ..r
        },
        Instruction::RLA() => Registers {
            a: rotated_left(r.a, r.f.carry),
            f: rotate_flags(high_bit(r.a)),
            ..r
        },
        Instruction::RRCA() => Registers {
            a: rotated_right(r.a, low_bit(r.a)),
            f: rotate_flags(low_bit(r.a)),
            ..r
        },
        Instruction::RRLA() => Registers {
            a: rotated_left(r.a, high_bit(r.a)),
            f: rotate_flags(high_bit(r.a)),
            ..r
        },
        Instruction::CPL() => Registers {
            a: !r.a,
            f: FlagsRegister { subtract: true, half_carry: true, ..r.f },
            ..r
        },
        Instruction::BIT(target, bit) => Registers {
            f: FlagsRegister {
                zero: !bit_of(r.spec_read(target), bit),
                subtract: false,
                half_carry: true,
                ..r.f
            },
            ..r
        },
        Instruction::RES(target, bit) => r.spec_write(
            target,
            with_bit_cleared(r.spec_read(target), bit),
        ),
        Instruction::SET(target, bit) => r.spec_write(
            target,
            with_bit_set(r.spec_read(target), bit),
        ),
        Instruction::SRL(target) => {
            let value = r.spec_read(target);
            let result = halved(value);
            Registers { f: shift_flags(result, low_bit(value)), ..r }.spec_write(target, result)
        },
        Instruction::SLL(target) => {
            let value = r.spec_read(target);
            let result = doubled(value);
            Registers { f: shift_flags(result, high_bit(value)), ..r }.spec_write(target, result)
        },
        _ => r,
    }
}

} // verus!
