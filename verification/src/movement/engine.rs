//! One motor of the robot, behind an H-bridge: a PWM input sets the speed,
//! two direction inputs set the sense of rotation.
use vstd::prelude::*;

use crate::timing::pwm::PwmPinOps;

verus! {

/// A motor: its PWM output and the levels of its two direction pins.
pub struct Engine<PWM: PwmPinOps> {
    pwm: PWM,
    forward_high: bool,
    backward_high: bool,
}

impl<PWM: PwmPinOps> Engine<PWM> {
    /// The PWM output of the motor.
    pub closed spec fn pwm_of(&self) -> PWM {
        self.pwm
    }

    /// Whether the forward direction pin is driven high.
    pub closed spec fn drives_forward(&self) -> bool {
        self.forward_high
    }

    /// Whether the backward direction pin is driven high.
    pub closed spec fn drives_backward(&self) -> bool {
        self.backward_high
    }

    /// At most one of the two direction pins is high, so the H-bridge is
    /// never asked to drive both ways at once.
    pub open spec fn pins_exclusive(&self) -> bool {
        !(self.drives_forward() && self.drives_backward())
    }

    /// A motor on `pwm`, with its PWM output enabled and its duty cycle as
    /// it was; the direction pins keep the levels they have
    /// (`forward_high`, `backward_high`), which this does not change.
    pub fn new(pwm: PWM, forward_high: bool, backward_high: bool) -> (e: Self)
        ensures
            e.pwm_of().output_enabled(),
            e.pwm_of().duty_cycle() == pwm.duty_cycle(),
            e.drives_forward() == forward_high,
            e.drives_backward() == backward_high,
    {
        let mut pwm = pwm;
        pwm.enable();
        Engine { pwm, forward_high, backward_high }
    }

    /// Sets the speed: the duty cycle of the PWM output.
    pub fn set_speed(&mut self, speed: u8)
        ensures
            final(self).pwm_of().duty_cycle() == speed,
            final(self).pwm_of().output_enabled() == old(self).pwm_of().output_enabled(),
            final(self).drives_forward() == old(self).drives_forward(),
            final(self).drives_backward() == old(self).drives_backward(),
            old(self).pins_exclusive() ==> final(self).pins_exclusive(),
    {
        self.pwm.set_duty(speed);
    }

    /// Forward pin high, backward pin low.
    pub fn forward(&mut self)
        ensures
            final(self).drives_forward(),
            !final(self).drives_backward(),
            final(self).pwm_of() == old(self).pwm_of(),
            final(self).pins_exclusive(),
    {
        self.forward_high = true;
        self.backward_high = false;
    }

    /// Forward pin low, backward pin high.
    pub fn backward(&mut self)
        ensures
            !final(self).drives_forward(),
            final(self).drives_backward(),
            final(self).pwm_of() == old(self).pwm_of(),
            final(self).pins_exclusive(),
    {
        self.forward_high = false;
        self.backward_high = true;
    }

    /// Both direction pins low.
    pub fn stop(&mut self)
        ensures
            !final(self).drives_forward(),
            !final(self).drives_backward(),
            final(self).pwm_of() == old(self).pwm_of(),
            final(self).pins_exclusive(),
    {
        self.forward_high = false;
        self.backward_high = false;
    }

    /// The level of the forward direction pin.
    pub fn forward_level(&self) -> (high: bool)
        ensures
            high == self.drives_forward(),
    {
        self.forward_high
    }

    /// The level of the backward direction pin.
    pub fn backward_level(&self) -> (high: bool)
        ensures
            high == self.drives_backward(),
    {
        self.backward_high
    }

    /// The PWM output of the motor.
    pub fn pwm(&self) -> (pwm: &PWM)
        ensures
            *pwm == self.pwm_of(),
    {
        &self.pwm
    }
}

} // verus!
