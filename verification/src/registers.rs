//! The register file: seven 8-bit registers and the packed flags byte, with
//! the 16-bit views BC, DE, HL and PSW computed from the bytes they are made of.

use vstd::prelude::*;
use crate::word::{pair_of, spec_high, spec_low, spec_pair_of, split};

pub mod flags;

pub use flags::Flags;
use flags::{_fix_flags, spec_fix_flags};

verus! {

/// The selector that names no register: it stands for the memory byte that HL
/// points at.
pub const MEMORY_OPERAND: usize = 6;

/// The accumulator A, the six general registers and the flags byte.
#[derive(Clone, Copy, Debug, PartialEq, Eq, Structural)]
pub struct Registers {
    /// The condition flags, packed: sign in bit 7, zero in bit 6, auxiliary
    /// carry in bit 4, parity in bit 2, carry in bit 0. Every method that
    /// writes this byte forces its fixed bits, and the status word shows them
    /// forced whatever is stored here.
    pub flags: u8,
    pub a: u8,
    pub b: u8,
    pub c: u8,
    pub d: u8,
    pub e: u8,
    pub h: u8,
    pub l: u8,
}

impl Default for Registers {
    fn default() -> (r: Self)
        ensures
            r == Registers::spec_new(),
    {
        Registers::new()
    }
}

impl Registers {
    /// The register file at power-up: every register is zero and the flags
    /// byte holds nothing but its fixed bit.
    pub open spec fn spec_new() -> Registers {
        Registers { flags: 0x02, a: 0, b: 0, c: 0, d: 0, e: 0, h: 0, l: 0 }
    }

    /// The processor status word: the flags byte, with its fixed bits forced,
    /// above the accumulator.
    pub open spec fn spec_psw(self) -> u16 {
        spec_pair_of(spec_fix_flags(self.flags), self.a)
    }

    pub open spec fn spec_bc(self) -> u16 {
        spec_pair_of(self.b, self.c)
    }

    pub open spec fn spec_de(self) -> u16 {
        spec_pair_of(self.d, self.e)
    }

    pub open spec fn spec_hl(self) -> u16 {
        spec_pair_of(self.h, self.l)
    }

    /// This register file after a write of `value` to the status word.
    pub open spec fn spec_set_psw(self, value: u16) -> Registers {
        Registers { flags: spec_fix_flags(spec_high(value)), a: spec_low(value), ..self }
    }

    pub open spec fn spec_bc_set(self, value: u16) -> Registers {
        Registers { b: spec_high(value), c: spec_low(value), ..self }
    }

    pub open spec fn spec_de_set(self, value: u16) -> Registers {
        Registers { d: spec_high(value), e: spec_low(value), ..self }
    }

    pub open spec fn spec_hl_set(self, value: u16) -> Registers {
        Registers { h: spec_high(value), l: spec_low(value), ..self }
    }

    /// Whether `idx` selects a register: 0 to 5 for B, C, D, E, H, L and 7 for A.
    pub open spec fn selects_register(idx: int) -> bool {
        0 <= idx < 8 && idx != MEMORY_OPERAND
    }

    /// The register that the 3-bit selector `idx` names.
    pub open spec fn spec_index(self, idx: int) -> u8 {
        if idx == 0 {
            self.b
        } else if idx == 1 {
            self.c
        } else if idx == 2 {
            self.d
        } else if idx == 3 {
            self.e
        } else if idx == 4 {
            self.h
        } else if idx == 5 {
            self.l
        } else {
            self.a
        }
    }

    /// This register file with `value` in the register that `idx` names.
    pub open spec fn spec_store(self, idx: int, value: u8) -> Registers {
        if idx == 0 {
            Registers { b: value, ..self }
        } else if idx == 1 {
            Registers { c: value, ..self }
        } else if idx == 2 {
            Registers { d: value, ..self }
        } else if idx == 3 {
            Registers { e: value, ..self }
        } else if idx == 4 {
            Registers { h: value, ..self }
        } else if idx == 5 {
            Registers { l: value, ..self }
        } else {
            Registers { a: value, ..self }
        }
    }

    pub fn new() -> (r: Self)
        ensures
            r == Registers::spec_new(),
    {
        Registers { flags: 0x02, a: 0, b: 0, c: 0, d: 0, e: 0, h: 0, l: 0 }
    }

    /// Gives the merge of the flags and A: flags in the high byte, with bit 1
    /// set and bits 3 and 5 clear whatever the flags byte holds.
    pub fn psw(&self) -> (word: u16)
        ensures
            word == self.spec_psw(),
    {
        pair_of(_fix_flags(self.flags), self.a)
    }

    /// Gives the merge of B and C, B in the high byte.
    pub fn bc(&self) -> (word: u16)
        ensures
            word == self.spec_bc(),
    {
        pair_of(self.b, self.c)
    }

    /// Gives the merge of D and E, D in the high byte.
    pub fn de(&self) -> (word: u16)
        ensures
            word == self.spec_de(),
    {
        pair_of(self.d, self.e)
    }

    /// Gives the merge of H and L, H in the high byte.
    pub fn hl(&self) -> (word: u16)
        ensures
            word == self.spec_hl(),
    {
        pair_of(self.h, self.l)
    }

    /// Sets the flags from the high byte of `value`, fixed bits forced, and A
    /// from its low byte.
    pub fn set_psw(&mut self, value: u16)
        ensures
            *final(self) == old(self).spec_set_psw(value),
    {
        let (hi, lo) = split(value);
        self.flags = hi;
        self.a = lo;
        self.fix_flags();
    }

    /// Sets B to the high byte of `value` and C to its low byte.
    pub fn bc_set(&mut self, value: u16)
        ensures
            *final(self) == old(self).spec_bc_set(value),
    {
        let (hi, lo) = split(value);
        self.b = hi;
        self.c = lo;
    }

    /// Sets D to the high byte of `value` and E to its low byte.
    pub fn de_set(&mut self, value: u16)
        ensures
            *final(self) == old(self).spec_de_set(value),
    {
        let (hi, lo) = split(value);
        self.d = hi;
        self.e = lo;
    }

    /// Sets H to the high byte of `value` and L to its low byte.
    pub fn hl_set(&mut self, value: u16)
        ensures
            *final(self) == old(self).spec_hl_set(value),
    {
        let (hi, lo) = split(value);
        self.h = hi;
        self.l = lo;
    }

    /// Access to a register by its 3-bit selector. Selector 6 names no
    /// register: it means that HL is to be used as an address into memory.
    pub fn index(&self, idx: usize) -> (r: &u8)
        requires
            Registers::selects_register(idx as int),
        ensures
            *r == self.spec_index(idx as int),
    {
        match idx {
            0x00 => &self.b,
            0x01 => &self.c,
            0x02 => &self.d,
            0x03 => &self.e,
            0x04 => &self.h,
            0x05 => &self.l,
            _ => &self.a,
        }
    }

    /// Mutable access to a register by its 3-bit selector. Selector 6 names no
    /// register: it means that HL is to be used as an address into memory.
    pub fn index_mut(&mut self, idx: usize) -> (r: &mut u8)
        requires
            Registers::selects_register(idx as int),
        ensures
            *r == old(self).spec_index(idx as int),
            *final(self) == old(self).spec_store(idx as int, *final(r)),
    {
        match idx {
            0x00 => &mut self.b,
            0x01 => &mut self.c,
            0x02 => &mut self.d,
            0x03 => &mut self.e,
            0x04 => &mut self.h,
            0x05 => &mut self.l,
            _ => &mut self.a,
        }
    }
}

} // verus!
