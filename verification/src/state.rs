//! The mathematical model of the register file, and what holds of it.
//!
//! A pair is not storage of its own: reading one joins its two byte
//! registers, writing one splits the word over them. Everything the
//! executable register file promises is stated over this model.

use vstd::prelude::*;
use crate::pair::{high_of, lemma_split_bits, lemma_word_of_bits, low_of, word_of};

verus! {

/// The eight byte registers.
pub enum Reg8 {
    A,
    B,
    C,
    D,
    E,
    F,
    H,
    L,
}

/// The four register pairs.
pub enum Reg16 {
    AF,
    BC,
    DE,
    HL,
}

impl Reg16 {
    /// The byte register that holds the pair's high byte.
    pub open spec fn high(self) -> Reg8 {
        match self {
            Reg16::AF => Reg8::A,
            Reg16::BC => Reg8::B,
            Reg16::DE => Reg8::D,
            Reg16::HL => Reg8::H,
        }
    }

    /// The byte register that holds the pair's low byte.
    pub open spec fn low(self) -> Reg8 {
        match self {
            Reg16::AF => Reg8::F,
            Reg16::BC => Reg8::C,
            Reg16::DE => Reg8::E,
            Reg16::HL => Reg8::L,
        }
    }
}

/// What a register file holds: eight bytes, the stack pointer and the
/// program counter.
pub struct RegisterState {
    pub a: u8,
    pub b: u8,
    pub c: u8,
    pub d: u8,
    pub e: u8,
    pub f: u8,
    pub h: u8,
    pub l: u8,
    pub sp: u16,
    pub pc: u16,
}

impl RegisterState {
    /// The state in which every register is zero.
    pub open spec fn zero() -> RegisterState {
        RegisterState { a: 0, b: 0, c: 0, d: 0, e: 0, f: 0, h: 0, l: 0, sp: 0, pc: 0 }
    }

    /// The value of byte register `r`.
    pub open spec fn byte(self, r: Reg8) -> u8 {
        match r {
            Reg8::A => self.a,
            Reg8::B => self.b,
            Reg8::C => self.c,
            Reg8::D => self.d,
            Reg8::E => self.e,
            Reg8::F => self.f,
            Reg8::H => self.h,
            Reg8::L => self.l,
        }
    }

    /// The state after `x` is stored in byte register `r`.
    pub open spec fn with_byte(self, r: Reg8, x: u8) -> RegisterState {
        match r {
            Reg8::A => RegisterState { a: x, ..self },
            Reg8::B => RegisterState { b: x, ..self },
            Reg8::C => RegisterState { c: x, ..self },
            Reg8::D => RegisterState { d: x, ..self },
            Reg8::E => RegisterState { e: x, ..self },
            Reg8::F => RegisterState { f: x, ..self },
            Reg8::H => RegisterState { h: x, ..self },
            Reg8::L => RegisterState { l: x, ..self },
        }
    }

    /// The value of pair `p`: its high register's byte above its low
    /// register's byte.
    pub open spec fn word(self, p: Reg16) -> u16 {
        word_of(self.byte(p.high()), self.byte(p.low()))
    }

    /// The state after `v` is stored in pair `p`: the high byte of `v` in the
    /// pair's high register, the low byte in its low register.
    pub open spec fn with_word(self, p: Reg16, v: u16) -> RegisterState {
        self.with_byte(p.high(), high_of(v)).with_byte(p.low(), low_of(v))
    }

    /// The state after `v` is stored in the stack pointer.
    pub open spec fn with_sp(self, v: u16) -> RegisterState {
        RegisterState { sp: v, ..self }
    }

    /// The state after `v` is stored in the program counter.
    pub open spec fn with_pc(self, v: u16) -> RegisterState {
        RegisterState { pc: v, ..self }
    }
}

/// In the zero state every byte register, every pair, the stack pointer and
/// the program counter read zero.
pub proof fn lemma_zero_reads_zero(r: Reg8, p: Reg16)
    ensures
        RegisterState::zero().byte(r) == 0,
        RegisterState::zero().word(p) == 0,
        RegisterState::zero().sp == 0,
        RegisterState::zero().pc == 0,
{
}

/// A byte register reads back the byte that was stored in it.
pub proof fn lemma_byte_round_trip(s: RegisterState, r: Reg8, x: u8)
    ensures
        s.with_byte(r, x).byte(r) == x,
{
}

/// Storing a byte in one register changes no other byte register, nor the
/// stack pointer, nor the program counter.
pub proof fn lemma_byte_write_frame(s: RegisterState, r: Reg8, x: u8, q: Reg8)
    requires
        q != r,
    ensures
        s.with_byte(r, x).byte(q) == s.byte(q),
        s.with_byte(r, x).sp == s.sp,
        s.with_byte(r, x).pc == s.pc,
{
}

/// A pair reads back the word that was stored in it.
pub proof fn lemma_word_round_trip(s: RegisterState, p: Reg16, v: u16)
    ensures
        s.with_word(p, v).word(p) == v,
{
}

/// Storing a word in a pair leaves its upper eight bits in the pair's high
/// register and its lower eight bits in the low register.
pub proof fn lemma_word_write_bytes(s: RegisterState, p: Reg16, v: u16)
    ensures
        s.with_word(p, v).byte(p.high()) == (v >> 8) as u8,
        s.with_word(p, v).byte(p.low()) == (v & 0xFF) as u8,
{
    lemma_split_bits(v);
}

/// Storing a word in a pair changes no byte register outside the pair, nor
/// the stack pointer, nor the program counter.
pub proof fn lemma_word_write_frame(s: RegisterState, p: Reg16, v: u16, q: Reg8)
    requires
        q != p.high(),
        q != p.low(),
    ensures
        s.with_word(p, v).byte(q) == s.byte(q),
        s.with_word(p, v).sp == s.sp,
        s.with_word(p, v).pc == s.pc,
{
}

/// Two bytes stored one after the other in a pair's registers read as one
/// word: the high byte shifted left by eight, or-ed with the low byte.
pub proof fn lemma_bytes_read_as_word(s: RegisterState, p: Reg16, hi: u8, lo: u8)
    ensures
        s.with_byte(p.high(), hi).with_byte(p.low(), lo).word(p) == (hi as u16) << 8 | (lo as u16),
        s.with_byte(p.low(), lo).with_byte(p.high(), hi).word(p) == (hi as u16) << 8 | (lo as u16),
{
    lemma_word_of_bits(hi, lo);
}

/// The stack pointer and the program counter read back what was stored in
/// them, and storing either changes nothing else.
pub proof fn lemma_sp_pc_writes(s: RegisterState, v: u16, r: Reg8)
    ensures
        s.with_sp(v).sp == v,
        s.with_sp(v).pc == s.pc,
        s.with_sp(v).byte(r) == s.byte(r),
        s.with_pc(v).pc == v,
        s.with_pc(v).sp == s.sp,
        s.with_pc(v).byte(r) == s.byte(r),
{
}

} // verus!
