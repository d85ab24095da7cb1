//! The robot's "spring" behaviour: it keeps a set distance from whatever
//! stands in front of it, moving towards it or away from it with a speed
//! that grows with the error.
use vstd::prelude::*;

verus! {

/// The distance the robot keeps, in centimetres.
pub const GOAL_CM: i32 = 50;
/// Errors up to this many centimetres either way leave the robot still.
pub const DEAD_ZONE_CM: i32 = 5;
/// Speed added per centimetre of error.
pub const SPEED_PER_CM: u8 = 32;

/// `i32::abs`: the absolute value; `i32::MIN` has none.
pub assume_specification[<i32>::abs](x: i32) -> (r: i32)
    requires
        x != i32::MIN,
    ensures
        r == (if x < 0 { -x } else { x as int }),
;

/// `u8::saturating_mul`: the product, or `u8::MAX` where it is larger.
pub assume_specification[<u8>::saturating_mul](x: u8, y: u8) -> (r: u8)
    ensures
        r == (if x * y > u8::MAX { u8::MAX as int } else { x * y }),
;

/// Where the motors should take the robot.
#[derive(PartialEq, Eq, Structural, Clone, Copy, Debug)]
pub enum Direction {
    Forward,
    Backward,
    Stop,
}

/// A direction and a speed for both motors.
#[derive(PartialEq, Eq, Structural, Clone, Copy, Debug)]
pub struct DriveCommand {
    pub direction: Direction,
    pub speed: u8,
}

/// The measured distance as the controller reads it: the `u32` taken as an
/// `i32`, so that readings from 2^31 up count as negative.
pub open spec fn signed_distance(distance_cm: u32) -> int {
    if distance_cm <= i32::MAX {
        distance_cm as int
    } else {
        distance_cm - 0x1_0000_0000
    }
}

/// How far the robot is beyond the goal (negative: too close).
pub open spec fn distance_error(distance_cm: u32) -> int {
    signed_distance(distance_cm) - GOAL_CM
}

/// The magnitude of an error.
pub open spec fn magnitude(error: int) -> int {
    if error < 0 { -error } else { error }
}

/// The speed for an error: `SPEED_PER_CM` per centimetre, at most 255.
pub open spec fn speed_for(error: int) -> int {
    if magnitude(error) * SPEED_PER_CM > u8::MAX {
        u8::MAX as int
    } else {
        magnitude(error) * SPEED_PER_CM
    }
}

/// The direction for an error: back off when too close, close in when too
/// far, stay inside the dead zone.
pub open spec fn direction_for(error: int) -> Direction {
    if error < -DEAD_ZONE_CM {
        Direction::Backward
    } else if error > DEAD_ZONE_CM {
        Direction::Forward
    } else {
        Direction::Stop
    }
}

/// What the robot does for a distance reading.
pub fn drive_command(distance_cm: u32) -> (c: DriveCommand)
    requires
        distance_error(distance_cm) > i32::MIN,
    ensures
        c.direction == direction_for(distance_error(distance_cm)),
        c.speed == speed_for(distance_error(distance_cm)),
{
    let signed: i32 = distance_cm as i32;
    assert(signed == signed_distance(distance_cm)) by (bit_vector)
        requires
            signed == distance_cm as i32,
    ;
    let dist: i32 = signed - GOAL_CM;
    let speed: u8 = match u8::try_from(dist.abs()) {
        Ok(speed) => speed.saturating_mul(SPEED_PER_CM),
        Err(_) => u8::MAX,
    };
    let direction = if dist < -DEAD_ZONE_CM {
        Direction::Backward
    } else if dist > DEAD_ZONE_CM {
        Direction::Forward
    } else {
        Direction::Stop
    };
    DriveCommand { direction, speed }
}


/// For a reading up to `i32::MAX`: the robot backs off below 45 cm, closes
/// in above 55 cm and stands still in between; its speed is 32 per
/// centimetre away from 50 cm, capped at 255.
pub proof fn lemma_spring_keeps_fifty_centimetres(distance_cm: u32)
    requires
        distance_cm <= i32::MAX,
    ensures
        direction_for(distance_error(distance_cm)) == (if distance_cm < 45 {
            Direction::Backward
        } else if distance_cm > 55 {
            Direction::Forward
        } else {
            Direction::Stop
        }),
        ({
            let away: int = if distance_cm >= 50 { distance_cm - 50 } else { 50 - distance_cm };
            speed_for(distance_error(distance_cm)) == if 32 * away > 255 { 255 } else { 32 * away }
        }),
{
}

/// A reading of `2^31` or more counts as negative, so the robot backs off
/// at full speed.
pub proof fn lemma_spring_backs_off_on_wrapped_readings(distance_cm: u32)
    requires
        distance_cm > i32::MAX,
        distance_error(distance_cm) > i32::MIN,
    ensures
        direction_for(distance_error(distance_cm)) == Direction::Backward,
        speed_for(distance_error(distance_cm)) == 255,
{
}
} // verus!
