//! Instruction-execution core of an 8-bit CPU: a register file, a packed
//! condition-flags register, and the state transition every instruction
//! performs on them.

pub mod bits;
pub mod cpu;
pub mod dump;
pub mod flags;
pub mod instruction;
pub mod laws;
pub mod registers;
pub mod semantics;

pub use cpu::CPU;
pub use flags::FlagsRegister;
pub use instruction::{ArithmeticTarget, Instruction};
pub use registers::Registers;
