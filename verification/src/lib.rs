//! Register file of an 8-bit, Z80-derived CPU core (Sharp LR35902).
//!
//! Eight byte registers, a stack pointer and a program counter, with the
//! four architectural register pairs AF, BC, DE and HL exposed as 16-bit
//! views over their two byte registers.

pub mod pair;
pub mod registers;
pub mod state;

pub use registers::Registers;
