//! The execution engine: one instruction, one transition of the register
//! file.

use vstd::prelude::*;
use crate::bits::{
    difference8, lemma_insert_high_bit, lemma_insert_low_bit, lemma_low_nibble,
    lemma_low_twelve_bits, lemma_shift_left, lemma_shift_right, lemma_top_bit, sum16, sum8,
};
use crate::instruction::{ArithmeticTarget, Instruction};
use crate::registers::Registers;
use crate::semantics::{add16_flags, add_flags, step, sub_flags};

verus! {

/// The CPU: its register file, and nothing else.
#[derive(Clone, Copy, Debug, PartialEq, Eq, Structural)]
pub struct CPU {
    pub registers: Registers,
}

impl CPU {
    /// The CPU after `instruction` is executed.
    pub open spec fn spec_execute(self, instruction: Instruction) -> CPU {
        CPU { registers: step(self.registers, instruction) }
    }

    /// Executes one instruction: the register file becomes what `step`
    /// makes of it, flags included, and nothing else changes.
    ///
    /// A bit index must name one of the eight bits of a register.
    pub fn execute(&mut self, instruction: Instruction)
        requires
            instruction.well_formed(),
        ensures
            *final(self) == old(self).spec_execute(instruction),
    {
        match instruction {
            Instruction::ADD(target) => self.add_register(target),
            Instruction::ADDHL(target) => self.add_register_to_hl(target),
            Instruction::ADC(target) => self.add_with_carry(target),
            Instruction::SUB(target) => self.subtract_register(target),
            Instruction::SBC(target) => self.subtract_with_carry(target),
            Instruction::AND(target) => self.and_register(target),
            Instruction::OR(target) => self.or_register(target),
            Instruction::XOR(target) => self.xor_register(target),
            Instruction::CP(target) => self.compare_register(target),
            Instruction::INC(target) => self.increment(target),
            Instruction::DEC(target) => self.decrement(target),
            Instruction::CCF() => self.complement_carry(),
            Instruction::SCF() => self.set_carry(),
            Instruction::RRA() => self.rotate_right_through_carry(),
            Instruction::RLA() => self.rotate_left_through_carry(),
            Instruction::RRCA() => self.rotate_right(),
            Instruction::RRLA() => self.rotate_left(),
            Instruction::CPL() => self.complement_accumulator(),
            Instruction::BIT(target, bit) => self.test_bit(target, bit),
            Instruction::RES(target, bit) => self.reset_bit(target, bit),
            Instruction::SET(target, bit) => self.set_bit(target, bit),
            Instruction::SRL(target) => self.shift_right(target),
            Instruction::SLL(target) => self.shift_left(target),
            _ => {},
        }
    }

    /// Adds `value` to the accumulator without storing the sum: the flags
    /// are set for the addition and the wrapped sum is returned.
    pub fn add(&mut self, value: u8) -> (new_value: u8)
        ensures
            new_value == sum8(old(self).registers.a, value),
            final(self).registers == (Registers {
                f: add_flags(old(self).registers.a, value),
                ..old(self).registers
            }),
    {
        let a = self.registers.a;
        let new_value = a.wrapping_add(value);
        proof {
            lemma_low_nibble(a);
            lemma_low_nibble(value);
        }
        self.registers.f.zero = new_value == 0;
        self.registers.f.subtract = false;
        self.registers.f.carry = a as u16 + value as u16 > 0xFF;
        self.registers.f.half_carry = (a & 0xF) + (value & 0xF) > 0xF;
        new_value
    }

    /// Adds `value` to the pair `hl` without storing the sum: the flags are
    /// set for the 16-bit addition and the wrapped sum is returned.
    pub fn addhl(&mut self, value: u8) -> (new_value: u16)
        ensures
            new_value == sum16(old(self).registers.spec_get_hl(), value as u16),
            final(self).registers == (Registers {
                f: add16_flags(old(self).registers.spec_get_hl(), value),
                ..old(self).registers
            }),
    {
        let hl = self.registers.get_hl();
        let new_value = hl.wrapping_add(value as u16);
        proof {
            lemma_low_twelve_bits(hl);
        }
        self.registers.f.zero = new_value == 0;
        self.registers.f.subtract = false;
        self.registers.f.carry = hl as u32 + value as u32 > 0xFFFF;
        self.registers.f.half_carry = (hl & 0xFFF) + value as u16 > 0xFFF;
        new_value
    }

    /// Subtracts `value` from the accumulator without storing the
    /// difference: the flags are set for the subtraction and the wrapped
    /// difference is returned.
    pub fn sub(&mut self, value: u8) -> (new_value: u8)
        ensures
            new_value == difference8(old(self).registers.a, value),
            final(self).registers == (Registers {
                f: sub_flags(old(self).registers.a, value),
                ..old(self).registers
            }),
    {
        let a = self.registers.a;
        let new_value = a.wrapping_sub(value);
        proof {
            lemma_low_nibble(a);
            lemma_low_nibble(value);
        }
        self.registers.f.zero = new_value == 0;
        self.registers.f.subtract = true;
        self.registers.f.carry = a < value;
        self.registers.f.half_carry = (a & 0xF) < (value & 0xF);
        new_value
    }

    /// `ADD`: the register is added to the accumulator.
    fn add_register(&mut self, target: ArithmeticTarget)
        ensures
            *final(self) == old(self).spec_execute(Instruction::ADD(target)),
    {
        let value = self.registers.read(target);
        self.registers.a = self.add(value);
    }

    /// `ADDHL`: the register is added to the pair `hl`.
    fn add_register_to_hl(&mut self, target: ArithmeticTarget)
        ensures
            *final(self) == old(self).spec_execute(Instruction::ADDHL(target)),
    {
        let value = self.registers.read(target);
        let new_value = self.addhl(value);
        self.registers.set_hl(new_value);
    }

    /// `ADC`: the register is added to the accumulator, then the carry
    /// that came in.
    fn add_with_carry(&mut self, target: ArithmeticTarget)
        ensures
            *final(self) == old(self).spec_execute(Instruction::ADC(target)),
    {
        let value = self.registers.read(target);
        let carry: u8 = if self.registers.f.carry { 1 } else { 0 };
        self.registers.a = self.add(value);
        self.registers.a = self.add(carry);
    }

    /// `SUB`: the register is subtracted from the accumulator.
    fn subtract_register(&mut self, target: ArithmeticTarget)
        ensures
            *final(self) == old(self).spec_execute(Instruction::SUB(target)),
    {
        let value = self.registers.read(target);
        self.registers.a = self.sub(value);
    }

    /// `SBC`: the register is subtracted from the accumulator, then the
    /// carry that came in.
    fn subtract_with_carry(&mut self, target: ArithmeticTarget)
        ensures
            *final(self) == old(self).spec_execute(Instruction::SBC(target)),
    {
        let value = self.registers.read(target);
        let carry: u8 = if self.registers.f.carry { 1 } else { 0 };
        self.registers.a = self.sub(value);
        self.registers.a = self.sub(carry);
    }

    /// `AND`: the accumulator keeps the bits it shares with the register.
    fn and_register(&mut self, target: ArithmeticTarget)
        ensures
            *final(self) == old(self).spec_execute(Instruction::AND(target)),
    {
        self.registers.a = self.registers.a & self.registers.read(target);
        self.registers.f.zero = self.registers.a == 0;
        self.registers.f.subtract = false;
        self.registers.f.half_carry = true;
        self.registers.f.carry = false;
    }

    /// `OR`: the accumulator gains the bits of the register.
    fn or_register(&mut self, target: ArithmeticTarget)
        ensures
            *final(self) == old(self).spec_execute(Instruction::OR(target)),
    {
        self.registers.a = self.registers.a | self.registers.read(target);
        self.registers.f.zero = self.registers.a == 0;
        self.registers.f.subtract = false;
        self.registers.f.half_carry = false;
        self.registers.f.carry = false;
    }

    /// `XOR`: the accumulator keeps the bits in which it differs from the
    /// register.
    fn xor_register(&mut self, target: ArithmeticTarget)
        ensures
            *final(self) == old(self).spec_execute(Instruction::XOR(target)),
    {
        self.registers.a = self.registers.a ^ self.registers.read(target);
        self.registers.f.zero = self.registers.a == 0;
        self.registers.f.subtract = false;
        self.registers.f.half_carry = false;
        self.registers.f.carry = false;
    }

    /// `CP`: the accumulator is compared with the register; only the flags
    /// change.
    fn compare_register(&mut self, target: ArithmeticTarget)
        ensures
            *final(self) == old(self).spec_execute(Instruction::CP(target)),
    {
        let a = self.registers.a;
        let value = self.registers.read(target);
        proof {
            lemma_low_nibble(a);
            lemma_low_nibble(value);
        }
        self.registers.f.zero = a == value;
        self.registers.f.carry = a < value;
        self.registers.f.subtract = (a & 0xF) < (value & 0xF);
        self.registers.f.half_carry = false;
    }

    /// `INC`: the register goes up by one, wrapping at 255.
    fn increment(&mut self, target: ArithmeticTarget)
        ensures
            *final(self) == old(self).spec_execute(Instruction::INC(target)),
    {
        let value = self.registers.read(target);
        let new_value = value.wrapping_add(1);
        proof {
            lemma_low_nibble(value);
            assert(new_value == sum8(value, 1));
        }
        self.registers.f.half_carry = value & 0xF == 0xF;
        self.registers.write(target, new_value);
        self.registers.f.zero = new_value == 0;
        self.registers.f.subtract = false;
    }

    /// `DEC`: the register goes down by one, wrapping at 0.
    fn decrement(&mut self, target: ArithmeticTarget)
        ensures
            *final(self) == old(self).spec_execute(Instruction::DEC(target)),
    {
        let value = self.registers.read(target);
        let new_value = value.wrapping_sub(1);
        proof {
            lemma_low_nibble(value);
            assert(new_value == difference8(value, 1));
        }
        self.registers.f.half_carry = value & 0xF == 0;
        self.registers.write(target, new_value);
        self.registers.f.zero = new_value == 0;
        self.registers.f.subtract = true;
    }

    /// `CCF`: the carry flag is inverted.
    fn complement_carry(&mut self)
        ensures
            *final(self) == old(self).spec_execute(Instruction::CCF()),
    {
        self.registers.f.carry = !self.registers.f.carry;
        self.registers.f.subtract = false;
        self.registers.f.half_carry = false;
    }

    /// `SCF`: the carry flag is set.
    fn set_carry(&mut self)
        ensures
            *final(self) == old(self).spec_execute(Instruction::SCF()),
    {
        self.registers.f.carry = true;
        self.registers.f.subtract = false;
        self.registers.f.half_carry = false;
    }

    /// `RRA`: the accumulator and the carry flag rotate right as nine bits.
    fn rotate_right_through_carry(&mut self)
        ensures
            *final(self) == old(self).spec_execute(Instruction::RRA()),
    {
        let a = self.registers.a;
        let old_carry: u8 = if self.registers.f.carry { 1 } else { 0 };
        proof {
            lemma_shift_right(a);
            lemma_insert_high_bit(a, old_carry);
        }
        self.registers.a = (a >> 1) | (old_carry << 7);
        self.registers.f.carry = (a & 1) != 0;
        self.registers.f.zero = false;
        self.registers.f.subtract = false;
        self.registers.f.half_carry = false;
    }

    /// `RLA`: the accumulator and the carry flag rotate left as nine bits.
    fn rotate_left_through_carry(&mut self)
        ensures
            *final(self) == old(self).spec_execute(Instruction::RLA()),
    {
        let a = self.registers.a;
        let old_carry: u8 = if self.registers.f.carry { 1 } else { 0 };
        proof {
            lemma_top_bit(a);
            lemma_insert_low_bit(a, old_carry);
        }
        self.registers.a = (a << 1) | old_carry;
        self.registers.f.carry = (a >> 7) != 0;
        self.registers.f.zero = false;
        self.registers.f.subtract = false;
        self.registers.f.half_carry = false;
    }

    /// `RRCA`: the accumulator rotates right; the bit that wraps round is
    /// copied to carry.
    fn rotate_right(&mut self)
        ensures
            *final(self) == old(self).spec_execute(Instruction::RRCA()),
    {
        let a = self.registers.a;
        let moved: u8 = a & 1;
        proof {
            lemma_shift_right(a);
            lemma_insert_high_bit(a, moved);
        }
        self.registers.a = (a >> 1) | (moved << 7);
        self.registers.f.carry = moved != 0;
        self.registers.f.zero = false;
        self.registers.f.subtract = false;
        self.registers.f.half_carry = false;
    }

    /// `RRLA`: the accumulator rotates left; the bit that wraps round is
    /// copied to carry.
    fn rotate_left(&mut self)
        ensures
            *final(self) == old(self).spec_execute(Instruction::RRLA()),
    {
        let a = self.registers.a;
        let moved: u8 = a >> 7;
        proof {
            lemma_top_bit(a);
            lemma_insert_low_bit(a, moved);
        }
        self.registers.a = (a << 1) | moved;
        self.registers.f.carry = moved != 0;
        self.registers.f.zero = false;
        self.registers.f.subtract = false;
        self.registers.f.half_carry = false;
    }

    /// `CPL`: every bit of the accumulator is inverted.
    fn complement_accumulator(&mut self)
        ensures
            *final(self) == old(self).spec_execute(Instruction::CPL()),
    {
        self.registers.a = !self.registers.a;
        self.registers.f.subtract = true;
        self.registers.f.half_carry = true;
    }

    /// `BIT`: the zero flag tells whether the chosen bit of the register
    /// is clear.
    fn test_bit(&mut self, target: ArithmeticTarget, bit: u8)
        requires
            bit < 8,
        ensures
            *final(self) == old(self).spec_execute(Instruction::BIT(target, bit)),
    {
        let value = self.registers.read(target);
        self.registers.f.zero = (value & (1u8 << bit)) == 0;
        self.registers.f.subtract = false;
        self.registers.f.half_carry = true;
    }

    /// `RES`: the chosen bit of the register is cleared.
    fn reset_bit(&mut self, target: ArithmeticTarget, bit: u8)
        requires
            bit < 8,
        ensures
            *final(self) == old(self).spec_execute(Instruction::RES(target, bit)),
    {
        let value = self.registers.read(target);
        self.registers.write(target, value & !(1u8 << bit));
    }

    /// `SET`: the chosen bit of the register is set.
    fn set_bit(&mut self, target: ArithmeticTarget, bit: u8)
        requires
            bit < 8,
        ensures
            *final(self) == old(self).spec_execute(Instruction::SET(target, bit)),
    {
        let value = self.registers.read(target);
        self.registers.write(target, value | (1u8 << bit));
    }

    /// `SRL`: the register shifts right by one bit, into carry.
    fn shift_right(&mut self, target: ArithmeticTarget)
        ensures
            *final(self) == old(self).spec_execute(Instruction::SRL(target)),
    {
        let value = self.registers.read(target);
        let new_value = value >> 1;
        proof {
            lemma_shift_right(value);
        }
        self.registers.f.carry = (value & 1) != 0;
        self.registers.write(target, new_value);
        self.registers.f.zero = new_value == 0;
        self.registers.f.half_carry = false;
        self.registers.f.subtract = false;
    }

    /// `SLL`: the register shifts left by one bit, into carry.
    fn shift_left(&mut self, target: ArithmeticTarget)
        ensures
            *final(self) == old(self).spec_execute(Instruction::SLL(target)),
    {
        let value = self.registers.read(target);
        let new_value = value << 1;
        proof {
            lemma_shift_left(value);
            lemma_top_bit(value);
        }
        self.registers.f.carry = (value >> 7) != 0;
        self.registers.write(target, new_value);
        self.registers.f.zero = new_value == 0;
        self.registers.f.half_carry = false;
        self.registers.f.subtract = false;
    }
}

} // verus!
