//! The executable register file.

use vstd::prelude::*;
use crate::pair::{high_byte, join, low_byte};
use crate::state::{Reg16, Reg8, RegisterState};

verus! {

/// The registers of the CPU.
///
/// | pair | high | low | role                |
/// |------|------|-----|---------------------|
/// | AF   | A    | F   | accumulator, flags  |
/// | BC   | B    | C   | general purpose     |
/// | DE   | D    | E   | general purpose     |
/// | HL   | H    | L   | general purpose     |
/// | SP   |      |     | stack pointer       |
/// | PC   |      |     | program counter     |
///
/// The flags byte is stored as it is given; no bit of it has a meaning here.
pub struct Registers {
    a: u8,
    b: u8,
    c: u8,
    d: u8,
    e: u8,
    f: u8,
    h: u8,
    l: u8,
    sp: u16,
    pc: u16,
}

impl View for Registers {
    type V = RegisterState;

    closed spec fn view(&self) -> RegisterState {
        RegisterState {
            a: self.a,
            b: self.b,
            c: self.c,
            d: self.d,
            e: self.e,
            f: self.f,
            h: self.h,
            l: self.l,
            sp: self.sp,
            pc: self.pc,
        }
    }
}

impl Registers {
    /// A register file with every register at zero.
    pub fn new() -> (regs: Self)
        ensures
            regs@ == RegisterState::zero(),
    {
        Registers { a: 0, b: 0, c: 0, d: 0, e: 0, f: 0, h: 0, l: 0, sp: 0, pc: 0 }
    }

    /// Stores `val` in A and returns what A now holds.
    pub fn set_a(&mut self, val: u8) -> (stored: u8)
        ensures
            final(self)@ == old(self)@.with_byte(Reg8::A, val),
            stored == val,
            stored == final(self)@.byte(Reg8::A),
    {
        self.a = val;
        self.a
    }

    /// Stores `val` in B and returns what B now holds.
    pub fn set_b(&mut self, val: u8) -> (stored: u8)
        ensures
            final(self)@ == old(self)@.with_byte(Reg8::B, val),
            stored == val,
            stored == final(self)@.byte(Reg8::B),
    {
        self.b = val;
        self.b
    }

    /// Stores `val` in C and returns what C now holds.
    pub fn set_c(&mut self, val: u8) -> (stored: u8)
        ensures
            final(self)@ == old(self)@.with_byte(Reg8::C, val),
            stored == val,
            stored == final(self)@.byte(Reg8::C),
    {
        self.c = val;
        self.c
    }

    /// Stores `val` in D and returns what D now holds.
    pub fn set_d(&mut self, val: u8) -> (stored: u8)
        ensures
            final(self)@ == old(self)@.with_byte(Reg8::D, val),
            stored == val,
            stored == final(self)@.byte(Reg8::D),
    {
        self.d = val;
        self.d
    }

    /// Stores `val` in E and returns what E now holds.
    pub fn set_e(&mut self, val: u8) -> (stored: u8)
        ensures
            final(self)@ == old(self)@.with_byte(Reg8::E, val),
            stored == val,
            stored == final(self)@.byte(Reg8::E),
    {
        self.e = val;
        self.e
    }

    /// Stores `val` in F and returns what F now holds.
    pub fn set_f(&mut self, val: u8) -> (stored: u8)
        ensures
            final(self)@ == old(self)@.with_byte(Reg8::F, val),
            stored == val,
            stored == final(self)@.byte(Reg8::F),
    {
        self.f = val;
        self.f
    }

    /// Stores `val` in H and returns what H now holds.
    pub fn set_h(&mut self, val: u8) -> (stored: u8)
        ensures
            final(self)@ == old(self)@.with_byte(Reg8::H, val),
            stored == val,
            stored == final(self)@.byte(Reg8::H),
    {
        self.h = val;
        self.h
    }

    /// Stores `val` in L and returns what L now holds.
    pub fn set_l(&mut self, val: u8) -> (stored: u8)
        ensures
            final(self)@ == old(self)@.with_byte(Reg8::L, val),
            stored == val,
            stored == final(self)@.byte(Reg8::L),
    {
        self.l = val;
        self.l
    }

    /// Stores `val` in AF: its upper eight bits in A, its lower eight in F.
    pub fn set_af(&mut self, val: u16)
        ensures
            final(self)@ == old(self)@.with_word(Reg16::AF, val),
            final(self)@.a == (val >> 8) as u8,
            final(self)@.f == (val & 0xFF) as u8,
            final(self)@.word(Reg16::AF) == val,
    {
        self.a = high_byte(val);
        self.f = low_byte(val);
    }

    /// Stores `val` in BC: its upper eight bits in B, its lower eight in C.
    pub fn set_bc(&mut self, val: u16)
        ensures
            final(self)@ == old(self)@.with_word(Reg16::BC, val),
            final(self)@.b == (val >> 8) as u8,
            final(self)@.c == (val & 0xFF) as u8,
            final(self)@.word(Reg16::BC) == val,
    {
        self.b = high_byte(val);
        self.c = low_byte(val);
    }

    /// Stores `val` in DE: its upper eight bits in D, its lower eight in E.
    pub fn set_de(&mut self, val: u16)
        ensures
            final(self)@ == old(self)@.with_word(Reg16::DE, val),
            final(self)@.d == (val >> 8) as u8,
            final(self)@.e == (val & 0xFF) as u8,
            final(self)@.word(Reg16::DE) == val,
    {
        self.d = high_byte(val);
        self.e = low_byte(val);
    }

    /// Stores `val` in HL: its upper eight bits in H, its lower eight in L.
    pub fn set_hl(&mut self, val: u16)
        ensures
            final(self)@ == old(self)@.with_word(Reg16::HL, val),
            final(self)@.h == (val >> 8) as u8,
            final(self)@.l == (val & 0xFF) as u8,
            final(self)@.word(Reg16::HL) == val,
    {
        self.h = high_byte(val);
        self.l = low_byte(val);
    }

    /// Stores `val` in the stack pointer.
    pub fn set_sp(&mut self, val: u16)
        ensures
            final(self)@ == old(self)@.with_sp(val),
    {
        self.sp = val;
    }

    /// Stores `val` in the program counter.
    pub fn set_pc(&mut self, val: u16)
        ensures
            final(self)@ == old(self)@.with_pc(val),
    {
        self.pc = val;
    }

    /// The byte in A.
    pub fn read_a(&self) -> (val: u8)
        ensures
            val == self@.byte(Reg8::A),
    {
        self.a
    }

    /// The byte in B.
    pub fn read_b(&self) -> (val: u8)
        ensures
            val == self@.byte(Reg8::B),
    {
        self.b
    }

    /// The byte in C.
    pub fn read_c(&self) -> (val: u8)
        ensures
            val == self@.byte(Reg8::C),
    {
        self.c
    }

    /// The byte in D.
    pub fn read_d(&self) -> (val: u8)
        ensures
            val == self@.byte(Reg8::D),
    {
        self.d
    }

    /// The byte in E.
    pub fn read_e(&self) -> (val: u8)
        ensures
            val == self@.byte(Reg8::E),
    {
        self.e
    }

    /// The byte in F.
    pub fn read_f(&self) -> (val: u8)
        ensures
            val == self@.byte(Reg8::F),
    {
        self.f
    }

    /// The byte in H.
    pub fn read_h(&self) -> (val: u8)
        ensures
            val == self@.byte(Reg8::H),
    {
        self.h
    }

    /// The byte in L.
    pub fn read_l(&self) -> (val: u8)
        ensures
            val == self@.byte(Reg8::L),
    {
        self.l
    }

    /// The word in AF: A shifted left by eight, or-ed with F.
    pub fn read_af(&self) -> (val: u16)
        ensures
            val == self@.word(Reg16::AF),
            val == (self@.a as u16) << 8 | (self@.f as u16),
    {
        join(self.a, self.f)
    }

    /// The word in BC: B shifted left by eight, or-ed with C.
    pub fn read_bc(&self) -> (val: u16)
        ensures
            val == self@.word(Reg16::BC),
            val == (self@.b as u16) << 8 | (self@.c as u16),
    {
        join(self.b, self.c)
    }

    /// The word in DE: D shifted left by eight, or-ed with E.
    pub fn read_de(&self) -> (val: u16)
        ensures
            val == self@.word(Reg16::DE),
            val == (self@.d as u16) << 8 | (self@.e as u16),
    {
        join(self.d, self.e)
    }

    /// The word in HL: H shifted left by eight, or-ed with L.
    pub fn read_hl(&self) -> (val: u16)
        ensures
            val == self@.word(Reg16::HL),
            val == (self@.h as u16) << 8 | (self@.l as u16),
    {
        join(self.h, self.l)
    }

    /// The stack pointer.
    pub fn read_sp(&self) -> (val: u16)
        ensures
            val == self@.sp,
    {
        self.sp
    }

    /// The program counter.
    pub fn read_pc(&self) -> (val: u16)
        ensures
            val == self@.pc,
    {
        self.pc
    }
}

} // verus!
