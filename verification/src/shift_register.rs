//! The Space Invaders shift-register accessory: a 16-bit window shifted one
//! byte at a time, read back at a programmable bit offset.

use vstd::prelude::*;

verus! {

#[derive(Debug, Clone, Copy, PartialEq, Eq, Structural)]
pub struct ShiftRegister {
    pub low: u8,
    pub high: u8,
    pub offset: u8,
}

/// The 16-bit window: high byte over low byte.
pub open spec fn spec_shift_combined(s: ShiftRegister) -> u16 {
    (s.high * 0x100 + s.low) as u16
}

/// The byte a read returns: the combined 16-bit window shifted right by
/// `8 - offset` bits, truncated to 8 bits.
pub open spec fn spec_shift_read(s: ShiftRegister) -> u8
    recommends
        s.offset <= 7,
{
    (spec_shift_combined(s) >> (8 - s.offset) as u16) as u8
}

impl ShiftRegister {
    /// Both bytes and the offset start at zero.
    pub fn new() -> (r: Self)
        ensures
            r == (ShiftRegister { low: 0, high: 0, offset: 0 }),
    {
        ShiftRegister { low: 0, high: 0, offset: 0 }
    }

    /// The well-formedness the port writes maintain: the offset is 3 bits.
    pub open spec fn wf(&self) -> bool {
        self.offset <= 7
    }

    pub fn read(&self) -> (r: u8)
        requires
            self.wf(),
        ensures
            r == spec_shift_read(*self),
    {
        let combined: u16 = (self.high as u16) << 8 | self.low as u16;
        assert(combined == spec_shift_combined(*self)) by {
            let h = self.high;
            let l = self.low;
            assert((h as u16) << 8 | l as u16 == (h * 0x100 + l) as u16) by (bit_vector);
        }
        (combined >> (8 - self.offset as u16)) as u8
    }

    /// Shift the window: the old high byte moves down, `value` becomes the
    /// new high byte.
    pub fn write(&mut self, value: u8)
        ensures
            *final(self) == (ShiftRegister { low: old(self).high, high: value, ..*old(self) }),
    {
        self.low = self.high;
        self.high = value;
    }

    /// Set the read offset; only the low 3 bits are meaningful.
    pub fn write_offset(&mut self, offset: u8)
        ensures
            *final(self) == (ShiftRegister { offset: offset & 0b111, ..*old(self) }),
            final(self).wf(),
    {
        let masked = offset & 0b111;
        assert(offset & 0b111 <= 7) by (bit_vector);
        self.offset = masked;
    }
}

} // verus!
