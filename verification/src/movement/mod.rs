//! The pair of motors that moves the robot.
use vstd::prelude::*;

pub mod counters;
pub mod engine;

use crate::movement::engine::Engine;
use crate::timing::pwm::PwmPinOps;

verus! {

/// Both motors of the robot and its wheel rotation counter.
pub struct Movement<LPWM: PwmPinOps, RPWM: PwmPinOps, C> {
    left: Engine<LPWM>,
    right: Engine<RPWM>,
    /// The wheel rotation counter.
    pub rot_counter: C,
}

impl<LPWM: PwmPinOps, RPWM: PwmPinOps, C> Movement<LPWM, RPWM, C> {
    /// The left motor.
    pub closed spec fn left_of(&self) -> Engine<LPWM> {
        self.left
    }

    /// The right motor.
    pub closed spec fn right_of(&self) -> Engine<RPWM> {
        self.right
    }

    /// The wheel rotation counter.
    pub closed spec fn counter_of(&self) -> C {
        self.rot_counter
    }

    /// The robot's drive: its left and right motors and its wheel rotation
    /// counter.
    pub fn new(left: Engine<LPWM>, right: Engine<RPWM>, rot_counter: C) -> (m: Self)
        ensures
            m.left_of() == left,
            m.right_of() == right,
            m.counter_of() == rot_counter,
    {
        Movement { left, right, rot_counter }
    }

    /// Sets the same speed on both motors.
    pub fn set_speed(&mut self, speed: u8)
        ensures
            final(self).left_of().pwm_of().duty_cycle() == speed,
            final(self).right_of().pwm_of().duty_cycle() == speed,
            final(self).left_of().pwm_of().output_enabled() == old(self).left_of().pwm_of().output_enabled(),
            final(self).right_of().pwm_of().output_enabled() == old(self).right_of().pwm_of().output_enabled(),
            final(self).left_of().drives_forward() == old(self).left_of().drives_forward(),
            final(self).left_of().drives_backward() == old(self).left_of().drives_backward(),
            final(self).right_of().drives_forward() == old(self).right_of().drives_forward(),
            final(self).right_of().drives_backward() == old(self).right_of().drives_backward(),
            final(self).counter_of() == old(self).counter_of(),
    {
        self.left.set_speed(speed);
        self.right.set_speed(speed);
    }

    /// Both motors forward.
    pub fn forward(&mut self)
        ensures
            final(self).left_of().drives_forward() && !final(self).left_of().drives_backward(),
            final(self).right_of().drives_forward() && !final(self).right_of().drives_backward(),
            final(self).left_of().pwm_of() == old(self).left_of().pwm_of(),
            final(self).right_of().pwm_of() == old(self).right_of().pwm_of(),
            final(self).counter_of() == old(self).counter_of(),
    {
        self.left.forward();
        self.right.forward();
    }

    /// Both motors backward.
    pub fn backward(&mut self)
        ensures
            !final(self).left_of().drives_forward() && final(self).left_of().drives_backward(),
            !final(self).right_of().drives_forward() && final(self).right_of().drives_backward(),
            final(self).left_of().pwm_of() == old(self).left_of().pwm_of(),
            final(self).right_of().pwm_of() == old(self).right_of().pwm_of(),
            final(self).counter_of() == old(self).counter_of(),
    {
        self.left.backward();
        self.right.backward();
    }

    /// Both motors stopped.
    pub fn stop(&mut self)
        ensures
            !final(self).left_of().drives_forward() && !final(self).left_of().drives_backward(),
            !final(self).right_of().drives_forward() && !final(self).right_of().drives_backward(),
            final(self).left_of().pwm_of() == old(self).left_of().pwm_of(),
            final(self).right_of().pwm_of() == old(self).right_of().pwm_of(),
            final(self).counter_of() == old(self).counter_of(),
    {
        self.left.stop();
        self.right.stop();
    }

    /// Turns left: the left motor stops, the right one goes forward.
    pub fn left(&mut self)
        ensures
            !final(self).left_of().drives_forward() && !final(self).left_of().drives_backward(),
            final(self).right_of().drives_forward() && !final(self).right_of().drives_backward(),
            final(self).left_of().pwm_of() == old(self).left_of().pwm_of(),
            final(self).right_of().pwm_of() == old(self).right_of().pwm_of(),
            final(self).counter_of() == old(self).counter_of(),
    {
        self.left.stop();
        self.right.forward();
    }

    /// Turns right: the left motor goes forward, the right one stops.
    pub fn right(&mut self)
        ensures
            final(self).left_of().drives_forward() && !final(self).left_of().drives_backward(),
            !final(self).right_of().drives_forward() && !final(self).right_of().drives_backward(),
            final(self).left_of().pwm_of() == old(self).left_of().pwm_of(),
            final(self).right_of().pwm_of() == old(self).right_of().pwm_of(),
            final(self).counter_of() == old(self).counter_of(),
    {
        self.left.forward();
        self.right.stop();
    }

    /// The left motor.
    pub fn left_engine(&self) -> (e: &Engine<LPWM>)
        ensures
            *e == self.left_of(),
    {
        &self.left
    }

    /// The right motor.
    pub fn right_engine(&self) -> (e: &Engine<RPWM>)
        ensures
            *e == self.right_of(),
    {
        &self.right
    }
}

} // verus!
