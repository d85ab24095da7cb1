use rust_x_arduino::timing::{COM_CLEAR_ON_MATCH, COM_DISCONNECTED};
use rust_x_arduino::timing::{TIMER0_CLOCK_SELECT, TIMER0_WGM_FAST_PWM, TIMER0_WGM_NORMAL};
use rust_x_arduino::timing::millis::{Timer, FRACT_INC, FRACT_MAX, MICROS_PER_TIMER_OVERFLOW, MILLIS_INC};
use rust_x_arduino::timing::pwm::{OutputCompare, PwmPinOps, PwmReady, D5, D6};
use rust_x_arduino::timing::CPU_FREQUENCY_HZ;

#[test]
fn clock_constants_follow_from_the_prescaler() {
    assert_eq!(MICROS_PER_TIMER_OVERFLOW, 1024);
    assert_eq!(MILLIS_INC, 1);
    assert_eq!(FRACT_INC, 3);
    assert_eq!(FRACT_MAX, 125);
    assert_eq!(CPU_FREQUENCY_HZ, 16_000_000);
}

#[test]
fn new_clock_reads_zero() {
    let t = Timer::new();
    t.init();
    assert_eq!(t.millis(), 0);
    assert_eq!(t.micros(0, false), 0);
}

#[test]
fn one_overflow_is_one_millisecond() {
    let mut t = Timer::new();
    t.on_overflow();
    assert_eq!(t.millis(), 1);
}

#[test]
fn fraction_carries_on_the_forty_second_overflow() {
    let mut t = Timer::new();
    for _ in 0..41 {
        t.on_overflow();
    }
    assert_eq!(t.millis(), 41);
    t.on_overflow();
    // 41 * 3 = 123 eighths of a millisecond; the 42nd overflow carries.
    assert_eq!(t.millis(), 43);
    t.on_overflow();
    assert_eq!(t.millis(), 44);
}

#[test]
fn millis_advance_by_one_or_two_on_every_overflow() {
    let mut t = Timer::new();
    let mut last = 0u32;
    for _ in 0..1000 {
        t.on_overflow();
        let now = t.millis();
        assert!(now == last + 1 || now == last + 2);
        last = now;
    }
}

#[test]
fn micros_counts_four_per_tick() {
    let mut t = Timer::new();
    t.on_overflow();
    assert_eq!(t.micros(10, false), (256 + 10) * 4);
    assert_eq!(t.micros(0, false), 1024);
}

#[test]
fn micros_counts_a_pending_overflow() {
    let mut t = Timer::new();
    t.on_overflow();
    assert_eq!(t.micros(10, true), (512 + 10) * 4);
    // A counter at 255 with the flag set: the overflow is not counted.
    assert_eq!(t.micros(255, true), (256 + 255) * 4);
}

#[test]
fn pwm_pins_map_to_their_compare_units() {
    assert_eq!(D5::output_compare(), OutputCompare::A);
    assert_eq!(D6::output_compare(), OutputCompare::B);
    let t = Timer::new();
    let p5 = t.create_pwm_pin::<D5>(0, 0);
    let p6 = t.create_pwm_pin::<D6>(0, 0);
    assert_eq!(p5.unit(), OutputCompare::A);
    assert_eq!(p6.unit(), OutputCompare::B);
    assert_eq!(p5.duty(), 0);
    assert!(!p5.is_enabled());
}

#[test]
fn pwm_enable_disable_and_duty() {
    let t = Timer::new();
    let mut p = t.create_pwm_pin::<D6>(0, 0);
    p.enable();
    assert!(p.is_enabled());
    p.set_duty(200);
    assert_eq!(p.get_duty(), 200);
    assert!(p.is_enabled());
    p.disable();
    assert!(!p.is_enabled());
    assert_eq!(p.get_duty(), 200);
}

#[test]
fn pwm_duty_percent_in_u8() {
    let t = Timer::new();
    let mut p = t.create_pwm_pin::<D5>(0, 0);
    p.set_duty_percent(1);
    assert_eq!(p.get_duty(), 2);
    p.set_duty_percent(0);
    assert_eq!(p.get_duty(), 0);
}

#[test]
fn millis_counts_whole_milliseconds_of_1024_us_overflows() {
    let mut t = Timer::new();
    for k in 1..=1000u32 {
        t.on_overflow();
        assert_eq!(t.millis(), 1024 * k / 1000, "overflow {}", k);
        let us = t.micros(0, false);
        assert_eq!(us, 1024 * k);
        assert!(t.millis() <= us / 1000 && us / 1000 <= t.millis() + 2);
        let us_late = t.micros(255, false);
        assert!(t.millis() <= us_late / 1000 && us_late / 1000 <= t.millis() + 2);
    }
    assert_eq!(t.millis(), 1024);
}

#[test]
fn fraction_carries_three_times_per_125_overflows() {
    let mut t = Timer::new();
    for _ in 0..125 {
        t.on_overflow();
    }
    assert_eq!(t.millis(), 128);
    for _ in 0..42 {
        t.on_overflow();
    }
    assert_eq!(t.millis(), 171);
}

#[test]
fn micros_never_runs_backwards_across_an_overflow() {
    let mut t = Timer::new();
    t.on_overflow();
    // Counter at 254 before the overflow, then the overflow pending, then
    // serviced.
    let before = t.micros(254, false);
    let pending = t.micros(3, true);
    t.on_overflow();
    let after = t.micros(4, false);
    assert!(before <= pending && pending <= after);
    assert_eq!(pending, (512 + 3) * 4);
}

#[test]
fn overflow_guard_matches_the_counter() {
    let t = Timer::new();
    assert!(t.can_count_overflow());
    assert!(t.can_read_micros(255, true));
}

#[test]
fn pwm_pin_takes_the_register_values() {
    let t = Timer::new();
    let mut p = t.create_pwm_pin::<D5>(42, COM_CLEAR_ON_MATCH);
    assert_eq!(p.get_duty(), 42);
    assert!(p.is_enabled());
    p.disable();
    assert_eq!(p.mode_bits(), COM_DISCONNECTED);
    let q = t.create_pwm_pin::<D6>(0, 0b11);
    assert!(!q.is_enabled());
    assert_eq!(q.mode_bits(), 0b11);
}

#[test]
fn timer0_runs_at_a_sixty_fourth_of_the_clock() {
    assert_eq!(TIMER0_CLOCK_SELECT, 0b011);
    assert_eq!(TIMER0_WGM_NORMAL, 0b00);
    assert_eq!(TIMER0_WGM_FAST_PWM, 0b11);
}
