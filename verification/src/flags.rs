//! The five 8080 condition bits, their byte packing, the setters driven by
//! arithmetic results, and condition evaluation.
//!
//! The sign flag is kept as `sign_positive`: true when the most significant
//! bit of the last result was 0, the inverse of the S bit a real 8080 keeps.
//! The packed byte stores `sign_positive` in bit 7 as it is kept, without
//! re-inverting, so bit 7 of the packed byte is the inverse of the hardware
//! S bit. Packing and unpacking are therefore inverses of each other, which
//! pushing and popping the processor-status word relies on.

use vstd::prelude::*;

use crate::model::Condition;

verus! {

/// The number of set bits in a byte.
pub open spec fn spec_popcount(b: u8) -> int {
    (b & 1) + ((b >> 1) & 1) + ((b >> 2) & 1) + ((b >> 3) & 1) + ((b >> 4) & 1) + ((b >> 5) & 1)
        + ((b >> 6) & 1) + ((b >> 7) & 1)
}

#[derive(Debug, Clone, Copy, PartialEq, Eq, Structural)]
pub struct Flags {
    pub carry: bool,
    pub auxiliary_carry: bool,
    pub sign_positive: bool,
    pub zero: bool,
    pub parity_even: bool,
}

/// `f` after the zero, sign and parity bits have been set from the 8-bit
/// result `r`; carry and auxiliary carry keep their values.
pub open spec fn spec_set_from_arithmetic(f: Flags, r: u8) -> Flags {
    Flags {
        sign_positive: r & 0b1000_0000 == 0,
        zero: r == 0,
        parity_even: spec_popcount(r) % 2 == 0,
        ..f
    }
}

/// The packed flag byte: bit 0 carry, bit 1 constant 1, bit 2 parity,
/// bit 4 auxiliary carry, bit 6 zero, bit 7 `sign_positive` (the inverse of
/// the hardware S bit); bits 3 and 5 are 0.
pub open spec fn spec_flag_byte(f: Flags) -> u8 {
    ((if f.carry { 1u8 } else { 0u8 })
        | (if f.auxiliary_carry { 0b0001_0000u8 } else { 0u8 })
        | (if f.sign_positive { 0b1000_0000u8 } else { 0u8 })
        | (if f.zero { 0b0100_0000u8 } else { 0u8 })
        | (if f.parity_even { 0b0000_0100u8 } else { 0u8 })) | 0b0000_0010u8
}

/// The flags unpacked from a flag byte.
pub open spec fn spec_flags_of_byte(byte: u8) -> Flags {
    Flags {
        carry: byte & 0b0000_0001 > 0,
        auxiliary_carry: byte & 0b0001_0000 > 0,
        sign_positive: byte & 0b1000_0000 > 0,
        zero: byte & 0b0100_0000 > 0,
        parity_even: byte & 0b0000_0100 > 0,
    }
}

/// What each condition tests.
pub open spec fn spec_evaluate(f: Flags, condition: Condition) -> bool {
    match condition {
        Condition::Unconditional => true,
        Condition::Zero => f.zero,
        Condition::NoCarry => !f.carry,
        Condition::Carry => f.carry,
        Condition::ParityOdd => !f.parity_even,
        Condition::ParityEven => f.parity_even,
        Condition::Plus => f.sign_positive,
        Condition::Minus => !f.sign_positive,
        Condition::NonZero => !f.zero,
    }
}

/// Packing the flags and unpacking the byte again restores every flag, and
/// the packed byte always has bit 1 set and bits 3 and 5 clear.
pub proof fn lemma_flag_byte_round_trip(f: Flags)
    ensures
        spec_flags_of_byte(spec_flag_byte(f)) == f,
        spec_flag_byte(f) & 0b0000_0010 == 0b0000_0010,
        spec_flag_byte(f) & 0b0010_1000 == 0,
{
    let c: u8 = if f.carry { 1 } else { 0 };
    let a: u8 = if f.auxiliary_carry { 0b0001_0000 } else { 0 };
    let s: u8 = if f.sign_positive { 0b1000_0000 } else { 0 };
    let z: u8 = if f.zero { 0b0100_0000 } else { 0 };
    let p: u8 = if f.parity_even { 0b0000_0100 } else { 0 };
    let b = (c | a | s | z | p) | 0b0000_0010u8;
    assert((b == (c | a | s | z | p) | 0b0000_0010u8) && (c == 0 || c == 1) && (a == 0 || a
        == 0b0001_0000) && (s == 0 || s == 0b1000_0000) && (z == 0 || z == 0b0100_0000) && (p == 0
        || p == 0b0000_0100) ==> {
        &&& (b & 0b0000_0001 > 0) == (c == 1)
        &&& (b & 0b0001_0000 > 0) == (a == 0b0001_0000)
        &&& (b & 0b1000_0000 > 0) == (s == 0b1000_0000)
        &&& (b & 0b0100_0000 > 0) == (z == 0b0100_0000)
        &&& (b & 0b0000_0100 > 0) == (p == 0b0000_0100)
        &&& b & 0b0000_0010 == 0b0000_0010
        &&& b & 0b0010_1000 == 0
    }) by (bit_vector);
}

impl Flags {
    /// All five flags cleared.
    pub fn new() -> (r: Self)
        ensures
            r == (Flags {
                carry: false,
                auxiliary_carry: false,
                sign_positive: false,
                zero: false,
                parity_even: false,
            }),
    {
        Flags {
            carry: false,
            auxiliary_carry: false,
            sign_positive: false,
            zero: false,
            parity_even: false,
        }
    }

    /// Set the zero, sign and parity flags from an arithmetic result:
    /// zero iff the result is 0, sign-positive iff its top bit is 0, parity
    /// iff it has an even number of set bits.
    pub fn set_from_arithmetic(&mut self, result: u8)
        ensures
            *final(self) == spec_set_from_arithmetic(*old(self), result),
            final(self).zero == (result == 0),
            final(self).sign_positive == (result & 0b1000_0000 == 0),
            final(self).parity_even == (spec_popcount(result) % 2 == 0),
    {
        self.sign_positive = result & 0b1000_0000 == 0;
        self.zero = result == 0;
        let r = result;
        assert((r & 1) <= 1 && ((r >> 1) & 1) <= 1 && ((r >> 2) & 1) <= 1 && ((r >> 3) & 1) <= 1
            && ((r >> 4) & 1) <= 1 && ((r >> 5) & 1) <= 1 && ((r >> 6) & 1) <= 1 && ((r >> 7) & 1)
            <= 1) by (bit_vector);
        let ones: u8 = (r & 1) + ((r >> 1) & 1) + ((r >> 2) & 1) + ((r >> 3) & 1) + ((r >> 4) & 1)
            + ((r >> 5) & 1) + ((r >> 6) & 1) + ((r >> 7) & 1);
        self.parity_even = ones % 2 == 0;
    }

    pub fn as_byte(&self) -> (r: u8)
        ensures
            r == spec_flag_byte(*self),
    {
        (if self.carry { 1u8 } else { 0u8 })
            | (if self.auxiliary_carry { 0b0001_0000u8 } else { 0u8 })
            | (if self.sign_positive { 0b1000_0000u8 } else { 0u8 })
            | (if self.zero { 0b0100_0000u8 } else { 0u8 })
            | (if self.parity_even { 0b0000_0100u8 } else { 0u8 })
            | 0b0000_0010u8
    }

    pub fn set_byte(&mut self, byte: u8)
        ensures
            *final(self) == spec_flags_of_byte(byte),
    {
        self.carry = byte & 0b0000_0001 > 0;
        self.auxiliary_carry = byte & 0b0001_0000 > 0;
        self.sign_positive = byte & 0b1000_0000 > 0;
        self.zero = byte & 0b0100_0000 > 0;
        self.parity_even = byte & 0b0000_0100 > 0;
    }

    pub fn evaluate(&self, condition: Condition) -> (r: bool)
        ensures
            r == spec_evaluate(*self, condition),
    {
        match condition {
            Condition::Unconditional => true,
            Condition::Zero => self.zero,
            Condition::NoCarry => !self.carry,
            Condition::Carry => self.carry,
            Condition::ParityOdd => !self.parity_even,
            Condition::ParityEven => self.parity_even,
            Condition::Plus => self.sign_positive,
            Condition::Minus => !self.sign_positive,
            Condition::NonZero => !self.zero,
        }
    }
}

impl Default for Flags {
    /// All five flags cleared.
    fn default() -> (r: Self)
        ensures
            r == (Flags {
                carry: false,
                auxiliary_carry: false,
                sign_positive: false,
                zero: false,
                parity_even: false,
            }),
    {
        Flags::new()
    }
}

} // verus!
