//! Editing of one synthesizer parameter with the two gamepad sticks.
//!
//! The right stick chooses the direction (up: the value grows, down: it
//! shrinks), the left stick a modifier with five speeds. Stick positions are
//! held in hundredths of the full deflection (`-100..=100` for a stick at its
//! ends), the precision to which the controller rounds them.

use vstd::prelude::*;

verus! {

/// Delay between two repeated MIDI messages, in milliseconds, for a speed.
pub open spec fn spec_delay_millis(speed: u8) -> u128 {
    if speed == 2 || speed == 7 {
        190
    } else if speed == 3 || speed == 8 {
        140
    } else if speed == 4 || speed == 9 {
        60
    } else if speed == 5 || speed == 10 {
        30
    } else {
        100
    }
}

/// Speed that a direction and a modifier give: `1..=5` lower the value,
/// `6..=10` raise it, `0` leaves it alone.
pub open spec fn spec_speed(speed: u8, delay: u8) -> u8 {
    if 1 <= speed <= 4 && delay <= 4 {
        (1 + delay) as u8
    } else if 6 <= speed <= 10 && delay <= 4 {
        (6 + delay) as u8
    } else {
        0
    }
}

/// Value of the MIDI control-change message for a speed.
pub open spec fn spec_cc(speed: u8) -> u8 {
    if speed < 6 {
        127
    } else {
        0
    }
}

/// Modifier chosen by the left stick: at its top end the fastest (`4`), at its
/// bottom end the slowest (`1`), half way up `3`, half way down `2`.
pub open spec fn spec_speed_mod(value: int) -> u8 {
    if value == -100 {
        4
    } else if value == 100 {
        1
    } else if value < 0 {
        3
    } else if value > 0 {
        2
    } else {
        0
    }
}

/// Direction chosen by the right stick: up (`6`) raises, down (`1`) lowers.
pub open spec fn spec_speed_direction(value: int) -> u8 {
    if value < 0 {
        6
    } else if value > 0 {
        1
    } else {
        0
    }
}

pub open spec fn abs(x: int) -> int {
    if x < 0 {
        -x
    } else {
        x
    }
}

/// New speed or modifier after a stick moved from `prev` to `next`
/// (both in hundredths): a stick let go resets it, a small jitter is ignored.
pub open spec fn spec_next(next: int, prev: int, current: u8, value: u8) -> u8 {
    let diff = abs(abs(next) - prev);
    let grows = abs(next) >= prev;
    if value == 0 && current != 0 {
        0
    } else if !grows && diff > 10 && current != value {
        current
    } else if grows && diff > 5 && prev == 0 {
        value
    } else if grows && diff > 5 && current != value {
        value
    } else {
        current
    }
}

/// The parameter under edit and the last positions of both sticks.
#[derive(Debug, Clone, Copy, PartialEq, Eq, Structural)]
pub struct EditParam {
    /// parameter id
    pub pid: u8,
    pub speed: u8,
    pub delay: u8,
    /// last magnitude of the left stick, in hundredths
    pub prev_l: u32,
    /// last magnitude of the right stick, in hundredths
    pub prev_r: u32,
}

impl EditParam {
    /// A parameter taken up for editing, with both sticks at rest.
    pub fn new(pid: u8) -> (r: Self)
        ensures
            r == (EditParam { pid, speed: 0, delay: 0, prev_l: 0, prev_r: 0 }),
    {
        EditParam { pid, prev_l: 0, prev_r: 0, speed: 0, delay: 0 }
    }

    /// Delay between repeated messages for a speed, in milliseconds.
    pub fn delay_millis(speed: u8) -> (r: u128)
        ensures
            r == spec_delay_millis(speed),
    {
        match speed {
            2 | 7 => 190,
            3 | 8 => 140,
            4 | 9 => 60,
            5 | 10 => 30,
            _ => 100,
        }
    }

    /// Speed from a direction (`speed`) and a modifier (`delay`).
    pub fn get_speed(&mut self, speed: u8, delay: u8) -> (r: u8)
        ensures
            r == spec_speed(speed, delay),
            *final(self) == *old(self),
    {
        match (speed, delay) {
            (1 | 2 | 3 | 4, 0) => 1,
            (1 | 2 | 3 | 4, 1) => 2,
            (1 | 2 | 3 | 4, 2) => 3,
            (1 | 2 | 3 | 4, 3) => 4,
            (1 | 2 | 3 | 4, 4) => 5,
            (6 | 7 | 8 | 9 | 10, 0) => 6,
            (6 | 7 | 8 | 9 | 10, 1) => 7,
            (6 | 7 | 8 | 9 | 10, 2) => 8,
            (6 | 7 | 8 | 9 | 10, 3) => 9,
            (6 | 7 | 8 | 9 | 10, 4) => 10,
            _ => 0,
        }
    }

    /// Control-change value for a speed: `127` while lowering, `0` while raising.
    pub fn get_cc(speed: u8) -> (r: u8)
        ensures
            r == spec_cc(speed),
    {
        if speed < 6 {
            127
        } else if speed > 5 {
            0
        } else {
            64
        }
    }

    /// Modifier for a left-stick position in hundredths.
    pub fn get_speed_mod(&mut self, value: i32) -> (r: u8)
        ensures
            r == spec_speed_mod(value as int),
            *final(self) == *old(self),
    {
        if value == -100 {
            4
        } else if value == 100 {
            1
        } else if value < 0 {
            3
        } else if value > 0 {
            2
        } else {
            0
        }
    }

    /// Direction for a right-stick position in hundredths.
    pub fn get_speed_direction(&mut self, value: i32) -> (r: u8)
        ensures
            r == spec_speed_direction(value as int),
            *final(self) == *old(self),
    {
        if value < 0 {
            6
        } else if value > 0 {
            1
        } else {
            0
        }
    }

    /// New speed or modifier when a stick moves to `next` from a position of
    /// magnitude `prev` (hundredths); `current` is the old setting and `value`
    /// the one that the new position asks for.
    pub fn get_next(&mut self, next: i32, prev: u32, current: u8, value: u8) -> (r: u8)
        ensures
            r == spec_next(next as int, prev as int, current, value),
            *final(self) == *old(self),
    {
        let magnitude: i64 = if next < 0 {
            -(next as i64)
        } else {
            next as i64
        };
        let prev_i: i64 = prev as i64;
        let diff: i64 = if magnitude >= prev_i {
            magnitude - prev_i
        } else {
            prev_i - magnitude
        };
        let grows = magnitude >= prev_i;
        if value == 0 && current != 0 {
            0
        } else if !grows && diff > 10 && current != value {
            current
        } else if grows && diff > 5 && prev == 0 {
            value
        } else if grows && diff > 5 && current != value {
            value
        } else {
            current
        }
    }
}


/// A speed keeps the sense of its direction whatever the modifier: lowering
/// gives `1..=5`, raising `6..=10`, each modifier one step faster.
pub proof fn lemma_speed_keeps_direction(direction: u8, modifier: u8)
    requires
        modifier <= 4,
    ensures
        1 <= direction <= 4 ==> spec_speed(direction, modifier) == 1 + modifier,
        6 <= direction <= 10 ==> spec_speed(direction, modifier) == 6 + modifier,
        spec_speed(direction, modifier) <= 10,
        spec_cc(spec_speed(direction, modifier)) == 127 <==> spec_speed(direction, modifier) <= 5,
{
}

/// The faster modifiers repeat the message more often.
pub proof fn lemma_faster_is_more_often(speed: u8)
    requires
        2 <= speed <= 4 || 7 <= speed <= 9,
    ensures
        spec_delay_millis((speed + 1) as u8) < spec_delay_millis(speed),
{
}

/// The control-change value is always the lowering (`127`) or raising (`0`) one.
pub proof fn lemma_cc_is_direction(speed: u8)
    ensures
        spec_cc(speed) == 127 || spec_cc(speed) == 0,
{
}

} // verus!
