//! The button port: one byte whose bits mirror the cabinet's buttons.

use vstd::prelude::*;

verus! {

#[derive(Debug, Clone, Copy, PartialEq, Eq, Structural)]
pub enum Button {
    Start,
    Left,
    Right,
    Shoot,
    Coin,
}

/// A button going down or up.
#[derive(Debug, Clone, Copy, PartialEq, Eq, Structural)]
pub struct Event {
    pub button: Button,
    pub pressed: bool,
}

/// The bit of port 1 that each button drives.
pub open spec fn spec_button_bit(button: Button) -> u8 {
    match button {
        Button::Start => 2,
        Button::Shoot => 4,
        Button::Left => 5,
        Button::Right => 6,
        Button::Coin => 0,
    }
}

/// `byte` with bit `bit` set or cleared.
pub open spec fn spec_set_bit(byte: u8, bit: u8, value: bool) -> u8
    recommends
        bit <= 7,
{
    if value {
        byte | (1u8 << bit)
    } else {
        byte & !(1u8 << bit)
    }
}

impl Event {
    pub fn to_bit(self) -> (r: u8)
        ensures
            r == spec_button_bit(self.button),
            r <= 7,
    {
        match self.button {
            Button::Start => 2,
            Button::Shoot => 4,
            Button::Left => 5,
            Button::Right => 6,
            Button::Coin => 0,
        }
    }
}

#[derive(Debug, Clone, Copy, PartialEq, Eq, Structural)]
pub struct Buttons {
    pub port_1: u8,
}

impl Buttons {
    /// No button pressed.
    pub fn new() -> (r: Self)
        ensures
            r == (Buttons { port_1: 0 }),
    {
        Buttons { port_1: 0 }
    }

    /// The byte that a read of port 1 returns.
    pub fn port_1(self) -> (r: u8)
        ensures
            r == self.port_1,
    {
        self.port_1
    }

    pub fn set_bit(&mut self, bit: u8, value: bool)
        requires
            bit <= 7,
        ensures
            final(self).port_1 == spec_set_bit(old(self).port_1, bit, value),
    {
        let mask: u8 = 1u8 << bit;
        if value {
            self.port_1 = self.port_1 | mask;
        } else {
            self.port_1 = self.port_1 & !mask;
        }
    }

    /// Set or clear the event's button bit.
    pub fn update(&mut self, event: Event)
        ensures
            final(self).port_1 == spec_set_bit(
                old(self).port_1,
                spec_button_bit(event.button),
                event.pressed,
            ),
    {
        let bit = event.to_bit();
        self.set_bit(bit, event.pressed);
    }
}

impl Default for Buttons {
    /// No button pressed.
    fn default() -> (r: Self)
        ensures
            r == (Buttons { port_1: 0 }),
    {
        Buttons::new()
    }
}

} // verus!
