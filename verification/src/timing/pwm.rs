//! Fast PWM on the two output-compare channels of timer 0.
use vstd::prelude::*;

use crate::timing::millis::Timer;
use crate::timing::{COM_CLEAR_ON_MATCH, COM_DISCONNECTED};

verus! {

/// The two output-compare units of timer 0.
#[derive(PartialEq, Eq, Structural, Clone, Copy, Debug)]
pub enum OutputCompare {
    /// Compare unit A: register `OCR0A`, output mode bits `COM0A`.
    A,
    /// Compare unit B: register `OCR0B`, output mode bits `COM0B`.
    B,
}

/// A pin that timer 0 can drive with PWM, and the compare unit that
/// drives it.
pub trait PwmReady {
    /// The compare unit that drives this pin.
    spec fn compare_unit() -> OutputCompare;

    /// The compare unit that drives this pin.
    fn output_compare() -> (unit: OutputCompare)
        ensures
            unit == Self::compare_unit(),
    ;
}

/// Arduino pin 5 (`PD5`).
pub struct D5;

/// Arduino pin 6 (`PD6`).
pub struct D6;

impl PwmReady for D5 {
    open spec fn compare_unit() -> OutputCompare {
        OutputCompare::A
    }

    fn output_compare() -> (unit: OutputCompare) {
        OutputCompare::A
    }
}

impl PwmReady for D6 {
    open spec fn compare_unit() -> OutputCompare {
        OutputCompare::B
    }

    fn output_compare() -> (unit: OutputCompare) {
        OutputCompare::B
    }
}

/// Operations on a PWM output.
pub trait PwmPinOps {
    /// The compare value, which sets the duty cycle out of 255.
    spec fn duty_cycle(&self) -> u8;

    /// Whether the compare unit drives the pin.
    spec fn output_enabled(&self) -> bool;

    /// Connects the compare unit to the pin (clear on compare match).
    fn enable(&mut self)
        ensures
            final(self).output_enabled(),
            final(self).duty_cycle() == old(self).duty_cycle(),
    ;

    /// Disconnects the compare unit from the pin.
    fn disable(&mut self)
        ensures
            !final(self).output_enabled(),
            final(self).duty_cycle() == old(self).duty_cycle(),
    ;

    /// Sets the compare value.
    fn set_duty(&mut self, duty: u8)
        ensures
            final(self).duty_cycle() == duty,
            final(self).output_enabled() == old(self).output_enabled(),
    ;

    /// Sets the compare value to `duty * 255 / 100`, computed in `u8`:
    /// the product stays in range only for `duty` 0 and 1.
    fn set_duty_percent(&mut self, duty: u8)
        requires
            duty * 255 <= u8::MAX,
        ensures
            final(self).duty_cycle() == (duty * 255) / 100,
            final(self).output_enabled() == old(self).output_enabled(),
    {
        self.set_duty((duty * 255) / 100);
    }

    /// The compare value.
    fn get_duty(&mut self) -> (duty: u8)
        ensures
            duty == old(self).duty_cycle(),
            final(self).duty_cycle() == old(self).duty_cycle(),
            final(self).output_enabled() == old(self).output_enabled(),
    ;
}

/// A PWM output of timer 0: which compare unit drives it, the value of its
/// compare register and the output mode bits of that unit.
pub struct PwmPin {
    unit: OutputCompare,
    compare: u8,
    mode: u8,
}

impl PwmPin {
    /// The compare unit that drives this output.
    pub closed spec fn unit_of(&self) -> OutputCompare {
        self.unit
    }

    /// The output mode bits (`COM0x1:0`) of the compare unit.
    pub closed spec fn mode_of(&self) -> u8 {
        self.mode
    }

    /// The compare unit that drives this output.
    pub fn unit(&self) -> (unit: OutputCompare)
        ensures
            unit == self.unit_of(),
    {
        self.unit
    }

    /// Whether the compare unit drives the pin.
    pub fn is_enabled(&self) -> (enabled: bool)
        ensures
            enabled == self.output_enabled(),
    {
        self.mode == COM_CLEAR_ON_MATCH
    }

    /// The output mode bits of the compare unit.
    pub fn mode_bits(&self) -> (bits: u8)
        ensures
            bits == self.mode_of(),
    {
        self.mode
    }

    /// The compare value.
    pub fn duty(&self) -> (duty: u8)
        ensures
            duty == self.duty_cycle(),
    {
        self.compare
    }
}

impl PwmPinOps for PwmPin {
    closed spec fn duty_cycle(&self) -> u8 {
        self.compare
    }

    closed spec fn output_enabled(&self) -> bool {
        self.mode == COM_CLEAR_ON_MATCH
    }

    fn enable(&mut self)
        ensures
            final(self).unit_of() == old(self).unit_of(),
            final(self).mode_of() == COM_CLEAR_ON_MATCH,
    {
        self.mode = COM_CLEAR_ON_MATCH;
    }

    fn disable(&mut self)
        ensures
            final(self).unit_of() == old(self).unit_of(),
            final(self).mode_of() == COM_DISCONNECTED,
    {
        self.mode = COM_DISCONNECTED;
    }

    fn set_duty(&mut self, duty: u8)
        ensures
            final(self).unit_of() == old(self).unit_of(),
            final(self).mode_of() == old(self).mode_of(),
    {
        self.compare = duty;
    }

    fn get_duty(&mut self) -> (duty: u8)
        ensures
            *final(self) == *old(self),
    {
        self.compare
    }
}

impl Timer {
    /// A PWM output on `PIN`, driven by the compare unit of that pin. Nothing
    /// is written: the output takes the compare value and the output mode
    /// bits that the unit's registers hold (`compare`, `mode_bits`).
    pub fn create_pwm_pin<PIN: PwmReady>(&self, compare: u8, mode_bits: u8) -> (pin: PwmPin)
        requires
            mode_bits < 4,
        ensures
            pin.unit_of() == PIN::compare_unit(),
            pin.duty_cycle() == compare,
            pin.mode_of() == mode_bits,
    {
        PwmPin { unit: PIN::output_compare(), compare, mode: mode_bits }
    }
}

} // verus!
