use rust_x_arduino::servo::{TIMER1_CLOCK_SELECT, TIMER1_COM1A, TIMER1_WGM_HIGH, TIMER1_WGM_LOW};
use rust_x_arduino::movement::counters::RotCounter;
use rust_x_arduino::movement::engine::Engine;
use rust_x_arduino::movement::Movement;
use rust_x_arduino::servo::{Servo, MAX_LEFT, MAX_RIGHT, TIMER1_TOP};
use rust_x_arduino::spring::{drive_command, Direction, DriveCommand};
use rust_x_arduino::timing::millis::Timer;
use rust_x_arduino::timing::pwm::{PwmPinOps, D5, D6};

#[test]
fn engine_starts_enabled_and_stopped() {
    let t = Timer::new();
    let e = Engine::new(t.create_pwm_pin::<D6>(0, 0), false, false);
    assert!(e.pwm().is_enabled());
    assert!(!e.forward_level());
    assert!(!e.backward_level());
}

#[test]
fn engine_direction_pins() {
    let t = Timer::new();
    let mut e = Engine::new(t.create_pwm_pin::<D6>(0, 0), false, false);
    e.set_speed(128);
    assert_eq!(e.pwm().duty(), 128);
    e.forward();
    assert!(e.forward_level() && !e.backward_level());
    e.backward();
    assert!(!e.forward_level() && e.backward_level());
    e.stop();
    assert!(!e.forward_level() && !e.backward_level());
    assert_eq!(e.pwm().duty(), 128);
}

#[test]
fn movement_turns() {
    let t = Timer::new();
    let left = Engine::new(t.create_pwm_pin::<D6>(0, 0), false, false);
    let right = Engine::new(t.create_pwm_pin::<D5>(0, 0), false, false);
    let mut m = Movement::new(left, right, RotCounter::new());
    m.set_speed(255);
    assert_eq!(m.left_engine().pwm().duty(), 255);
    assert_eq!(m.right_engine().pwm().duty(), 255);
    m.left();
    assert!(!m.left_engine().forward_level() && !m.left_engine().backward_level());
    assert!(m.right_engine().forward_level() && !m.right_engine().backward_level());
    m.right();
    assert!(m.left_engine().forward_level());
    assert!(!m.right_engine().forward_level() && !m.right_engine().backward_level());
    m.backward();
    assert!(m.left_engine().backward_level() && m.right_engine().backward_level());
    m.forward();
    assert!(m.left_engine().forward_level() && m.right_engine().forward_level());
    m.stop();
    assert!(!m.left_engine().forward_level() && !m.right_engine().forward_level());
    assert_eq!(m.rot_counter.left_count(), 0);
}

#[test]
fn rotation_counters_count_high_pins() {
    let mut c = RotCounter::new();
    c.on_pin_change(true, false);
    c.on_pin_change(true, true);
    c.on_pin_change(false, false);
    assert_eq!(c.left_count(), 2);
    assert_eq!(c.right_count(), 1);
}

#[test]
fn servo_runs_at_fifty_hertz() {
    let s = Servo::new();
    assert_eq!(s.top(), TIMER1_TOP);
    assert_eq!(16_000_000 / (64 * (s.top() as u32 + 1)), 50);
    assert_eq!(s.compare(), 0);
}

#[test]
fn servo_angles() {
    let mut s = Servo::new();
    s.set_angle(0);
    assert_eq!(s.compare() as u32, MAX_LEFT);
    s.set_angle(180);
    assert_eq!(s.compare() as u32, MAX_RIGHT);
    s.set_angle(90);
    assert_eq!(s.compare(), 367);
    s.set_angle(255);
    assert_eq!(s.compare(), 830);
    s.set_duty(1000);
    assert_eq!(s.compare(), 1000);
    assert_eq!(s.top(), TIMER1_TOP);
}

#[test]
fn servo_duty_grows_with_angle() {
    let mut s = Servo::new();
    let mut last = 0u16;
    for a in 0..=180u8 {
        s.set_angle(a);
        assert!(s.compare() >= last);
        last = s.compare();
    }
}

#[test]
fn spring_stands_still_near_the_goal() {
    assert_eq!(drive_command(50), DriveCommand { direction: Direction::Stop, speed: 0 });
    assert_eq!(drive_command(52), DriveCommand { direction: Direction::Stop, speed: 64 });
    assert_eq!(drive_command(45), DriveCommand { direction: Direction::Stop, speed: 160 });
    assert_eq!(drive_command(55), DriveCommand { direction: Direction::Stop, speed: 160 });
}

#[test]
fn spring_moves_towards_the_goal() {
    assert_eq!(drive_command(56), DriveCommand { direction: Direction::Forward, speed: 192 });
    assert_eq!(drive_command(57), DriveCommand { direction: Direction::Forward, speed: 224 });
    assert_eq!(drive_command(58), DriveCommand { direction: Direction::Forward, speed: 255 });
    assert_eq!(drive_command(400), DriveCommand { direction: Direction::Forward, speed: 255 });
    assert_eq!(drive_command(44), DriveCommand { direction: Direction::Backward, speed: 192 });
    assert_eq!(drive_command(0), DriveCommand { direction: Direction::Backward, speed: 255 });
}

#[test]
fn spring_backs_off_when_no_echo() {
    // The missing-echo reading is taken as -1 cm: too close.
    assert_eq!(drive_command(u32::MAX), DriveCommand { direction: Direction::Backward, speed: 255 });
    assert_eq!(drive_command(2_147_483_647), DriveCommand { direction: Direction::Forward, speed: 255 });
}

#[test]
fn engine_keeps_the_pin_levels_it_is_given() {
    let t = Timer::new();
    let e = Engine::new(t.create_pwm_pin::<D6>(77, 0), true, true);
    assert!(e.forward_level());
    assert!(e.backward_level());
    assert!(e.pwm().is_enabled());
    assert_eq!(e.pwm().duty(), 77);
    let mut e = Engine::new(t.create_pwm_pin::<D5>(0, 0), false, true);
    assert!(!e.forward_level() && e.backward_level());
    e.forward();
    assert!(e.forward_level() && !e.backward_level());
}

#[test]
fn timer1_configuration_gives_fast_pwm_at_fifty_hertz() {
    assert_eq!(TIMER1_WGM_HIGH * 4 + TIMER1_WGM_LOW, 14);
    assert_eq!(TIMER1_CLOCK_SELECT, 0b011);
    assert_eq!(TIMER1_COM1A, 0b10);
}
