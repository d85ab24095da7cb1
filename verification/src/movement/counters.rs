//! Wheel rotation counters, advanced by the pin-change interrupt of the
//! two wheel encoders.
use vstd::prelude::*;

verus! {

/// Pulses counted on the left and on the right wheel encoder.
pub struct RotCounter {
    left: u8,
    right: u8,
}

impl RotCounter {
    /// Pulses counted on the left encoder.
    pub closed spec fn left_pulses(&self) -> u8 {
        self.left
    }

    /// Pulses counted on the right encoder.
    pub closed spec fn right_pulses(&self) -> u8 {
        self.right
    }

    /// Counters that have seen no pulse.
    pub fn new() -> (c: RotCounter)
        ensures
            c.left_pulses() == 0,
            c.right_pulses() == 0,
    {
        RotCounter { left: 0, right: 0 }
    }

    /// The body of the pin-change interrupt: each encoder whose pin reads
    /// high counts one more pulse.
    pub fn on_pin_change(&mut self, left_high: bool, right_high: bool)
        requires
            left_high ==> old(self).left_pulses() < u8::MAX,
            right_high ==> old(self).right_pulses() < u8::MAX,
        ensures
            final(self).left_pulses() == old(self).left_pulses() + if left_high { 1int } else { 0int },
            final(self).right_pulses() == old(self).right_pulses() + if right_high { 1int } else { 0int },
    {
        if left_high {
            self.left = self.left + 1;
        }
        if right_high {
            self.right = self.right + 1;
        }
    }

    /// Pulses counted on the left encoder.
    pub fn left_count(&self) -> (n: u8)
        ensures
            n == self.left_pulses(),
    {
        self.left
    }

    /// Pulses counted on the right encoder.
    pub fn right_count(&self) -> (n: u8)
        ensures
            n == self.right_pulses(),
    {
        self.right
    }
}

} // verus!
