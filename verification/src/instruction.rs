//! The instruction set: what an instruction names, not what it does.

use vstd::prelude::*;

verus! {

/// One of the seven 8-bit registers an instruction can operate on.
#[derive(Clone, Copy, Debug, PartialEq, Eq, Structural)]
pub enum ArithmeticTarget {
    A,
    B,
    C,
    D,
    E,
    H,
    L,
}

/// A decoded instruction: the operation, the register it works on where it
/// has one, and a bit index for the three single-bit operations.
#[derive(Clone, Copy, Debug, PartialEq, Eq, Structural)]
pub enum Instruction {
    ADD(ArithmeticTarget),
    ADDHL(ArithmeticTarget),
    ADC(ArithmeticTarget),
    SUB(ArithmeticTarget),
    SBC(ArithmeticTarget),
    AND(ArithmeticTarget),
    OR(ArithmeticTarget),
    XOR(ArithmeticTarget),
    CP(ArithmeticTarget),
    INC(ArithmeticTarget),
    DEC(ArithmeticTarget),
    CCF(),
    SCF(),
    RRA(),
    RLA(),
    RRCA(),
    RRLA(),
    CPL(),
    BIT(ArithmeticTarget, u8),
    RES(ArithmeticTarget, u8),
    SET(ArithmeticTarget, u8),
    SRL(ArithmeticTarget),
    SLL(ArithmeticTarget),
    RR(ArithmeticTarget),
    RL(ArithmeticTarget),
    RRC(ArithmeticTarget),
    RLC(ArithmeticTarget),
    SRA(ArithmeticTarget),
    SLA(ArithmeticTarget),
    SWAP(ArithmeticTarget),
}

impl Instruction {
    /// An instruction is well formed when its bit index, if it carries one,
    /// names one of the eight bits of a register.
    pub open spec fn well_formed(self) -> bool {
        match self {
            Instruction::BIT(_, bit) => bit < 8,
            Instruction::RES(_, bit) => bit < 8,
            Instruction::SET(_, bit) => bit < 8,
            _ => true,
        }
    }

    /// The instructions that change nothing when executed: the register
    /// rotates and shifts beyond `SRL` and `SLL`, which the engine accepts
    /// and leaves without effect.
    pub open spec fn placeholder(self) -> bool {
        match self {
            Instruction::RR(_) => true,
            Instruction::RL(_) => true,
            Instruction::RRC(_) => true,
            Instruction::RLC(_) => true,
            Instruction::SRA(_) => true,
            Instruction::SLA(_) => true,
            Instruction::SWAP(_) => true,
            _ => false,
        }
    }

    /// Tells whether the instruction is well formed.
    pub fn is_well_formed(&self) -> (ok: bool)
        ensures
            ok == self.well_formed(),
    {
        match self {
            Instruction::BIT(_, bit) => *bit < 8,
            Instruction::RES(_, bit) => *bit < 8,
            Instruction::SET(_, bit) => *bit < 8,
            _ => true,
        }
    }

    /// Tells whether executing the instruction would change nothing because
    /// the engine only accepts it.
    pub fn is_placeholder(&self) -> (idle: bool)
        ensures
            idle == self.placeholder(),
    {
        match self {
            Instruction::RR(_) => true,
            Instruction::RL(_) => true,
            Instruction::RRC(_) => true,
            Instruction::RLC(_) => true,
            Instruction::SRA(_) => true,
            Instruction::SLA(_) => true,
            Instruction::SWAP(_) => true,
            _ => false,
        }
    }
}

} // verus!
