//! Verified core of a small two-wheeled Arduino robot: the timer-0 clock,
//! the PWM outputs, the hobby servo, the motor drivers, the wheel
//! rotation counters, the ultrasonic range finder and the infrared
//! command mailbox. Hardware access lives outside this crate; every
//! decision and every computation that the firmware makes lives here.
pub mod echo;
pub mod infrared;
pub mod movement;
pub mod screen;
pub mod servo;
pub mod spring;
pub mod timing;
