//! The delay and sound timers, both counting down at 60 Hz.

use vstd::prelude::*;

verus! {

/// The two timers of the Chip-8 system.
#[derive(Debug)]
pub struct Timers {
    /// The delay timer, used for timing events in games.
    pub delay: u8,
    /// The sound timer; a tone plays while it is non-zero.
    pub sound: u8,
}

/// One 60 Hz step of a timer: it counts down and stops at zero.
pub open spec fn countdown(t: u8) -> u8 {
    if t > 0 {
        (t - 1) as u8
    } else {
        0
    }
}

impl Timers {
    /// Creates both timers at zero.
    pub fn new() -> (r: Timers)
        ensures
            r.delay == 0,
            r.sound == 0,
    {
        Timers { delay: 0, sound: 0 }
    }

    /// Advances both timers by one 60 Hz step.
    pub fn update(&mut self)
        ensures
            final(self).delay == countdown(old(self).delay),
            final(self).sound == countdown(old(self).sound),
    {
        if self.delay > 0 {
            self.delay -= 1;
        }
        if self.sound > 0 {
            self.sound -= 1;
        }
    }
}

impl Default for Timers {
    fn default() -> (r: Timers)
        ensures
            r.delay == 0,
            r.sound == 0,
    {
        Timers::new()
    }
}

} // verus!
