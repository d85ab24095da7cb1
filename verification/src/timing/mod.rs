//! Timers of the ATmega328P: the millisecond clock on timer 0 and the PWM
//! outputs that share it.
use vstd::prelude::*;

pub mod millis;
pub mod pwm;

verus! {

/// The CPU clock of the ATmega328P, in hertz.
pub const CPU_FREQUENCY_HZ: u32 = 16_000_000;

/// The prescaler that the clock-select bits (`CSn2:0`) of timer 0 or
/// timer 1 choose; 0 where they stop the timer or pick an external clock.
pub open spec fn timer01_prescaler(clock_select: u8) -> int {
    if clock_select == 1 {
        1
    } else if clock_select == 2 {
        8
    } else if clock_select == 3 {
        64
    } else if clock_select == 4 {
        256
    } else if clock_select == 5 {
        1024
    } else {
        0
    }
}

/// The prescaler that the clock-select bits (`CS22:0`) of timer 2 choose;
/// 0 where they stop the timer.
pub open spec fn timer2_prescaler(clock_select: u8) -> int {
    if clock_select == 1 {
        1
    } else if clock_select == 2 {
        8
    } else if clock_select == 3 {
        32
    } else if clock_select == 4 {
        64
    } else if clock_select == 5 {
        128
    } else if clock_select == 6 {
        256
    } else if clock_select == 7 {
        1024
    } else {
        0
    }
}

/// Clock-select bits of timer 0: the CPU clock over 64.
pub const TIMER0_CLOCK_SELECT: u8 = 0b011;
/// Waveform bits `WGM01:00` of timer 0 for the clock: normal mode, counting
/// 0 to 255.
pub const TIMER0_WGM_NORMAL: u8 = 0b00;
/// Waveform bits `WGM01:00` of timer 0 for PWM: fast PWM, counting 0 to
/// 255, so the overflow period stays the same.
pub const TIMER0_WGM_FAST_PWM: u8 = 0b11;

/// Output mode bits (`COMnx1:0`) that clear the pin on a compare match and
/// set it at the bottom: non-inverting PWM.
pub const COM_CLEAR_ON_MATCH: u8 = 0b10;
/// Output mode bits (`COMnx1:0`) that leave the pin to its port.
pub const COM_DISCONNECTED: u8 = 0b00;

} // verus!
