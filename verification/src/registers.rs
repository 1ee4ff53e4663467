//! The register file: seven 8-bit registers plus the 16-bit stack pointer
//! and program counter, with the pair accessors.

use vstd::prelude::*;

use crate::model::LargeRegPair;

verus! {

#[derive(Debug, Clone, Copy, PartialEq, Eq, Structural)]
pub struct Registers {
    pub b: u8,
    pub c: u8,
    pub d: u8,
    pub e: u8,
    pub h: u8,
    pub l: u8,
    pub a: u8,
    pub stack_pointer: u16,
    pub program_counter: u16,
}

/// A 16-bit value from a low and a high byte.
pub open spec fn spec_u16_of(lo: u8, hi: u8) -> u16 {
    (lo + hi * 0x100) as u16
}

/// The low byte of a 16-bit value.
pub open spec fn spec_lo(v: u16) -> u8 {
    (v % 0x100) as u8
}

/// The high byte of a 16-bit value.
pub open spec fn spec_hi(v: u16) -> u8 {
    (v / 0x100) as u8
}

/// The HL pair: L is the low byte, H the high byte.
pub open spec fn spec_hl(r: Registers) -> u16 {
    spec_u16_of(r.l, r.h)
}

/// The value of a large register pair: BC, DE and HL combine their low and
/// high bytes; SP is the stack pointer itself.
pub open spec fn spec_get_pair(r: Registers, pair: LargeRegPair) -> u16 {
    match pair {
        LargeRegPair::Bc => spec_u16_of(r.c, r.b),
        LargeRegPair::De => spec_u16_of(r.e, r.d),
        LargeRegPair::Hl => spec_u16_of(r.l, r.h),
        LargeRegPair::Sp => r.stack_pointer,
    }
}

/// The register file after a large pair has been set.
pub open spec fn spec_set_pair(r: Registers, pair: LargeRegPair, value: u16) -> Registers {
    match pair {
        LargeRegPair::Bc => Registers { c: spec_lo(value), b: spec_hi(value), ..r },
        LargeRegPair::De => Registers { e: spec_lo(value), d: spec_hi(value), ..r },
        LargeRegPair::Hl => Registers { l: spec_lo(value), h: spec_hi(value), ..r },
        LargeRegPair::Sp => Registers { stack_pointer: value, ..r },
    }
}

impl Registers {
    /// All registers zeroed; the program counter starts at `program_counter`.
    pub fn new_at(program_counter: u16) -> (r: Self)
        ensures
            r == (Registers {
                b: 0,
                c: 0,
                d: 0,
                e: 0,
                h: 0,
                l: 0,
                a: 0,
                stack_pointer: 0,
                program_counter,
            }),
    {
        Registers { b: 0, c: 0, d: 0, e: 0, h: 0, l: 0, a: 0, stack_pointer: 0, program_counter }
    }

    pub fn hl(&self) -> (r: u16)
        ensures
            r == spec_hl(*self),
    {
        self.l as u16 + self.h as u16 * 0x100
    }

    pub fn set_hl(&mut self, value: u16)
        ensures
            *final(self) == (Registers { l: spec_lo(value), h: spec_hi(value), ..*old(self) }),
            spec_hl(*final(self)) == value,
    {
        self.l = (value % 0x100) as u8;
        self.h = (value / 0x100) as u8;
    }

    pub fn get_pair(&self, pair: LargeRegPair) -> (r: u16)
        ensures
            r == spec_get_pair(*self, pair),
    {
        match pair {
            LargeRegPair::Bc => self.c as u16 + self.b as u16 * 0x100,
            LargeRegPair::De => self.e as u16 + self.d as u16 * 0x100,
            LargeRegPair::Hl => self.l as u16 + self.h as u16 * 0x100,
            LargeRegPair::Sp => self.stack_pointer,
        }
    }

    pub fn set_pair(&mut self, pair: LargeRegPair, value: u16)
        ensures
            *final(self) == spec_set_pair(*old(self), pair, value),
            spec_get_pair(*final(self), pair) == value,
    {
        let lo = (value % 0x100) as u8;
        let hi = (value / 0x100) as u8;
        match pair {
            LargeRegPair::Bc => {
                self.c = lo;
                self.b = hi;
            },
            LargeRegPair::De => {
                self.e = lo;
                self.d = hi;
            },
            LargeRegPair::Hl => {
                self.l = lo;
                self.h = hi;
            },
            LargeRegPair::Sp => {
                self.stack_pointer = value;
            },
        }
    }

    /// Replace a pair's value with `f` of it.
    pub fn map_pair<F: FnOnce(u16) -> u16>(&mut self, pair: LargeRegPair, f: F)
        requires
            f.requires((spec_get_pair(*old(self), pair),)),
        ensures
            exists|y: u16|
                f.ensures((spec_get_pair(*old(self), pair),), y) && *final(self) == spec_set_pair(
                    *old(self),
                    pair,
                    y,
                ),
    {
        let value = self.get_pair(pair);
        let y = f(value);
        self.set_pair(pair, y);
    }
}

} // verus!
