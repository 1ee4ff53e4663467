//! Sound edge detection: each write to a sound port is compared with the
//! previous value of the same port, and the freshly-raised bits trigger
//! sound events. The UFO loop is started and stopped by the rising and
//! falling edges of port 3 bit 0; every other sound is a one-shot on a
//! rising edge.

use vstd::prelude::*;

verus! {

#[derive(Debug, Clone, Copy, PartialEq, Eq, Structural)]
pub enum Sound {
    UfoStart,
    UfoStop,
    Shot,
    Flash,
    InvaderDie,
    FleetMovement1,
    FleetMovement2,
    FleetMovement3,
    FleetMovement4,
    UfoHit,
}

/// Retains the previous port-3 and port-5 bytes for edge detection.
#[derive(Debug, Clone, Copy, PartialEq, Eq, Structural)]
pub struct Handler {
    pub last_port_3: u8,
    pub last_port_5: u8,
}

/// The events a port-3 write triggers, in order: UFO start on a rising
/// bit 0, UFO stop on a falling bit 0, then Shot, Flash and InvaderDie on
/// rising bits 1, 2 and 3.
pub open spec fn spec_sounds_3(last: u8, value: u8) -> Seq<Sound> {
    let rising = value & !last;
    let falling = !value & last;
    let ufo: Seq<Sound> = if rising & 0b0001 > 0 {
        seq![Sound::UfoStart]
    } else if falling & 0b0001 > 0 {
        seq![Sound::UfoStop]
    } else {
        Seq::empty()
    };
    let shot: Seq<Sound> = if rising & 0b0010 > 0 {
        seq![Sound::Shot]
    } else {
        Seq::empty()
    };
    let flash: Seq<Sound> = if rising & 0b0100 > 0 {
        seq![Sound::Flash]
    } else {
        Seq::empty()
    };
    let die: Seq<Sound> = if rising & 0b1000 > 0 {
        seq![Sound::InvaderDie]
    } else {
        Seq::empty()
    };
    ufo + shot + flash + die
}

/// The events a port-5 write triggers, in order: the four fleet-movement
/// notes and UfoHit, on rising bits 0 through 4.
pub open spec fn spec_sounds_5(last: u8, value: u8) -> Seq<Sound> {
    let rising = value & !last;
    let m1: Seq<Sound> = if rising & 0b0_0001 > 0 {
        seq![Sound::FleetMovement1]
    } else {
        Seq::empty()
    };
    let m2: Seq<Sound> = if rising & 0b0_0010 > 0 {
        seq![Sound::FleetMovement2]
    } else {
        Seq::empty()
    };
    let m3: Seq<Sound> = if rising & 0b0_0100 > 0 {
        seq![Sound::FleetMovement3]
    } else {
        Seq::empty()
    };
    let m4: Seq<Sound> = if rising & 0b0_1000 > 0 {
        seq![Sound::FleetMovement4]
    } else {
        Seq::empty()
    };
    let hit: Seq<Sound> = if rising & 0b1_0000 > 0 {
        seq![Sound::UfoHit]
    } else {
        Seq::empty()
    };
    m1 + m2 + m3 + m4 + hit
}

impl Handler {
    /// Both retained port values start at zero.
    pub fn new() -> (r: Self)
        ensures
            r == (Handler { last_port_3: 0, last_port_5: 0 }),
    {
        Handler { last_port_3: 0, last_port_5: 0 }
    }

    /// Handle a write to port 3, returning the triggered events in order.
    pub fn write_3(&mut self, value: u8) -> (r: Vec<Sound>)
        ensures
            r@ == spec_sounds_3(old(self).last_port_3, value),
            *final(self) == (Handler { last_port_3: value, ..*old(self) }),
    {
        let mut sounds: Vec<Sound> = Vec::new();
        let rising = value & !self.last_port_3;
        let falling = !value & self.last_port_3;
        if rising & 0b0001 > 0 {
            sounds.push(Sound::UfoStart);
        } else if falling & 0b0001 > 0 {
            sounds.push(Sound::UfoStop);
        }
        if rising & 0b0010 > 0 {
            sounds.push(Sound::Shot);
        }
        if rising & 0b0100 > 0 {
            sounds.push(Sound::Flash);
        }
        if rising & 0b1000 > 0 {
            sounds.push(Sound::InvaderDie);
        }
        self.last_port_3 = value;
        proof {
            assert(sounds@ =~= spec_sounds_3(old(self).last_port_3, value));
        }
        sounds
    }

    /// Handle a write to port 5, returning the triggered events in order.
    pub fn write_5(&mut self, value: u8) -> (r: Vec<Sound>)
        ensures
            r@ == spec_sounds_5(old(self).last_port_5, value),
            *final(self) == (Handler { last_port_5: value, ..*old(self) }),
    {
        let mut sounds: Vec<Sound> = Vec::new();
        let rising = value & !self.last_port_5;
        if rising & 0b0_0001 > 0 {
            sounds.push(Sound::FleetMovement1);
        }
        if rising & 0b0_0010 > 0 {
            sounds.push(Sound::FleetMovement2);
        }
        if rising & 0b0_0100 > 0 {
            sounds.push(Sound::FleetMovement3);
        }
        if rising & 0b0_1000 > 0 {
            sounds.push(Sound::FleetMovement4);
        }
        if rising & 0b1_0000 > 0 {
            sounds.push(Sound::UfoHit);
        }
        self.last_port_5 = value;
        proof {
            assert(sounds@ =~= spec_sounds_5(old(self).last_port_5, value));
        }
        sounds
    }
}

} // verus!
