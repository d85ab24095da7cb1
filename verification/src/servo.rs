//! A hobby servo on pin 9, driven by timer 1 in fast PWM mode at 50 Hz.
use vstd::prelude::*;

use crate::timing::{timer01_prescaler, COM_CLEAR_ON_MATCH, CPU_FREQUENCY_HZ};

verus! {

/// The compare value for the leftmost position (0.46 ms pulse).
pub const MAX_LEFT: u32 = 115;
/// The compare value for the rightmost position (2.48 ms pulse).
pub const MAX_RIGHT: u32 = 620;
/// The span of compare values between the two end positions.
pub const INTERVAL: u32 = MAX_RIGHT - MAX_LEFT;

/// The top value of timer 1 (`ICR1`): with the prescaler at 64 the period
/// is 5000 ticks, 20 ms.
pub const TIMER1_TOP: u16 = 4999;
/// Clock-select bits of timer 1: the CPU clock over 64.
pub const TIMER1_CLOCK_SELECT: u8 = 0b011;
/// Waveform bits `WGM11:10` of timer 1, in `TCCR1A`.
pub const TIMER1_WGM_LOW: u8 = 0b10;
/// Waveform bits `WGM13:12` of timer 1, in `TCCR1B`.
pub const TIMER1_WGM_HIGH: u8 = 0b11;
/// Output mode bits `COM1A1:0`: the pulse on pin 9 ends at the compare
/// match.
pub const TIMER1_COM1A: u8 = COM_CLEAR_ON_MATCH;

/// The compare value for `angle` degrees.
pub open spec fn duty_for_angle(angle: u8) -> int {
    (angle * INTERVAL) / 180 + MAX_LEFT
}

/// The frequency of a fast PWM with the given top value and prescaler.
pub open spec fn pwm_frequency_hz(top: int, prescaler: int) -> int {
    (CPU_FREQUENCY_HZ as int) / (prescaler * (top + 1))
}

/// Timer 1 as the servo uses it: its top value and the compare value of
/// unit A, which sets the pulse width.
pub struct Servo {
    top: u16,
    compare: u16,
}

impl Servo {
    /// The top value of timer 1.
    pub closed spec fn top_of(&self) -> u16 {
        self.top
    }

    /// The compare value of unit A.
    pub closed spec fn compare_of(&self) -> u16 {
        self.compare
    }

    /// A servo with timer 1 set up for a 50 Hz period; the compare value is
    /// the one after reset, zero.
    pub fn new() -> (s: Servo)
        ensures
            s.top_of() == TIMER1_TOP,
            pwm_frequency_hz(s.top_of() as int, timer01_prescaler(TIMER1_CLOCK_SELECT)) == 50,
            s.compare_of() == 0,
    {
        let mut s = Servo { top: 0, compare: 0 };
        s.init();
        assert(16_000_000int / (64int * 5000) == 50) by (nonlinear_arith);
        s
    }

    /// Sets the top value of timer 1 for the 50 Hz period.
    fn init(&mut self)
        ensures
            final(self).top_of() == TIMER1_TOP,
            final(self).compare_of() == old(self).compare_of(),
    {
        self.top = TIMER1_TOP;
    }

    /// Turns the servo to `angle` degrees: the compare value goes linearly
    /// from `MAX_LEFT` at 0 to `MAX_RIGHT` at 180.
    pub fn set_angle(&mut self, angle: u8)
        ensures
            final(self).compare_of() == duty_for_angle(angle),
            final(self).top_of() == old(self).top_of(),
    {
        assert(angle * INTERVAL <= 255 * 505) by (nonlinear_arith)
            requires
                angle <= 255,
                INTERVAL == 505,
        ;
        let duty: u32 = ((angle as u32 * INTERVAL) / 180) + MAX_LEFT;
        self.compare = duty as u16;
    }

    /// Sets the compare value directly.
    pub fn set_duty(&mut self, duty: u16)
        ensures
            final(self).compare_of() == duty,
            final(self).top_of() == old(self).top_of(),
    {
        self.compare = duty;
    }

    /// The top value of timer 1.
    pub fn top(&self) -> (top: u16)
        ensures
            top == self.top_of(),
    {
        self.top
    }

    /// The compare value of unit A.
    pub fn compare(&self) -> (compare: u16)
        ensures
            compare == self.compare_of(),
    {
        self.compare
    }
}

/// The waveform bits select mode 14: fast PWM with the top value in
/// `ICR1`, so the period is `TIMER1_TOP + 1` ticks.
pub proof fn lemma_timer1_mode()
    ensures
        TIMER1_WGM_HIGH * 4 + TIMER1_WGM_LOW == 14,
        TIMER1_COM1A == 0b10,
{
}

/// Over the half turn the pulse grows with the angle, from `MAX_LEFT` at
/// 0 degrees to `MAX_RIGHT` at 180.
pub proof fn lemma_angle_range(a: u8, b: u8)
    requires
        a <= b <= 180,
    ensures
        duty_for_angle(0) == MAX_LEFT,
        duty_for_angle(180) == MAX_RIGHT,
        duty_for_angle(a) <= duty_for_angle(b),
        MAX_LEFT <= duty_for_angle(a) <= MAX_RIGHT,
{
    assert(a * 505 <= b * 505) by (nonlinear_arith)
        requires
            a <= b,
    ;
    vstd::arithmetic::div_mod::lemma_div_is_ordered(a * 505, b * 505, 180);
    vstd::arithmetic::div_mod::lemma_div_is_ordered(0int, a * 505, 180);
    assert(b * 505 <= 180 * 505) by (nonlinear_arith)
        requires
            b <= 180,
    ;
    vstd::arithmetic::div_mod::lemma_div_is_ordered(b * 505, 180int * 505, 180);
}


/// The compare value for an angle is 115 plus the whole number of 180ths
/// in `angle * 505`: the largest `k` with `180 * k <= 505 * angle`.
pub proof fn lemma_duty_is_scaled_angle(angle: u8)
    ensures
        180 * (duty_for_angle(angle) - 115) <= 505 * angle,
        505 * angle < 180 * (duty_for_angle(angle) - 115) + 180,
{
    vstd::arithmetic::div_mod::lemma_fundamental_div_mod(angle * 505, 180);
}

/// One more degree moves the compare value by 2 or 3 counts (505 counts
/// over 180 degrees): the pulse grows with every degree, with no flat
/// stretch and no jump.
pub proof fn lemma_duty_step(angle: u8)
    requires
        angle < 255,
    ensures
        duty_for_angle(angle) + 2 <= duty_for_angle((angle + 1) as u8) <= duty_for_angle(angle) + 3,
{
    lemma_duty_is_scaled_angle(angle);
    lemma_duty_is_scaled_angle((angle + 1) as u8);
}

/// The two ends and the middle of the half turn: 115 at 0 degrees, 367 at
/// 90 degrees, 620 at 180 degrees.
pub proof fn lemma_duty_landmarks()
    ensures
        duty_for_angle(0) == 115,
        duty_for_angle(90) == 367,
        duty_for_angle(180) == 620,
{
    lemma_duty_is_scaled_angle(0);
    lemma_duty_is_scaled_angle(90);
    lemma_duty_is_scaled_angle(180);
}
} // verus!
