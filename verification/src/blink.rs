//! The idle loop: the LED on PC13 blinks, changing its level every second.
use vstd::prelude::*;

verus! {

/// How long the LED keeps each level, in milliseconds.
pub const BLINK_DELAY_MS: u32 = 1000;

/// The level of the blinking LED's pin.
#[derive(Clone, Copy, Debug, PartialEq, Eq, Structural)]
pub struct Blink {
    pub high: bool,
}

impl Blink {
    /// A blinking LED whose pin is at level `high`.
    pub fn new(high: bool) -> (b: Blink)
        ensures
            b.high == high,
    {
        Blink { high }
    }

    /// Changes the level; returns the new level.
    pub fn toggle(&mut self) -> (high: bool)
        ensures
            final(self).high == !old(self).high,
            high == final(self).high,
    {
        self.high = !self.high;
        self.high
    }
}

} // verus!
