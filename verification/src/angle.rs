//! Angles of the main valve and positions of its servo.
//!
//! The servo takes 800 steps for 27 degrees, about 29.62963 steps per degree, counted from its
//! centre position.
use vstd::prelude::*;

use crate::{SERVO_CENTER_POS, SERVO_MAX_POS, SERVO_MIN_POS};

verus! {

/// The position of an angle, rounded down, without regard to the servo's range.
pub open spec fn unclamped_position(angle_x10: i16) -> int {
    (27 * SERVO_CENTER_POS + 80 * angle_x10) / 27
}

/// The position of an angle within the servo's range.
pub open spec fn position_of(angle_x10: i16) -> int {
    let position = unclamped_position(angle_x10);
    if position < SERVO_MIN_POS {
        SERVO_MIN_POS as int
    } else if position > SERVO_MAX_POS {
        SERVO_MAX_POS as int
    } else {
        position
    }
}

/// The angle of a position, rounded towards the centre.
pub open spec fn angle_of(position: u16) -> int {
    if position >= SERVO_CENTER_POS {
        27 * (position - SERVO_CENTER_POS) / 80
    } else {
        -(27 * (SERVO_CENTER_POS - position) / 80)
    }
}

/// The servo position for an angle in tenths of a degree.
pub fn angle_x10_to_position(angle_x10: i16) -> (position: u16)
    ensures
        position == position_of(angle_x10),
{
    let scaled: i32 = 27 * SERVO_CENTER_POS as i32 + 80 * angle_x10 as i32;
    if scaled < 27 * SERVO_MIN_POS as i32 {
        return SERVO_MIN_POS;
    }
    let position: i32 = scaled / 27;
    if position > SERVO_MAX_POS as i32 {
        SERVO_MAX_POS
    } else {
        position as u16
    }
}

/// The angle, in tenths of a degree, at a servo position.
pub fn position_to_angle_x10(position: u16) -> (angle_x10: i16)
    ensures
        angle_x10 == angle_of(position),
{
    if position >= SERVO_CENTER_POS {
        let scaled: i32 = 27 * (position - SERVO_CENTER_POS) as i32;
        (scaled / 80) as i16
    } else {
        let scaled: i32 = 27 * (SERVO_CENTER_POS - position) as i32;
        (-(scaled / 80)) as i16
    }
}

/// Every commanded position lies within the servo's range.
pub proof fn law_positions_are_in_range(angle_x10: i16)
    ensures
        SERVO_MIN_POS <= position_of(angle_x10) <= SERVO_MAX_POS,
{
}

/// A larger angle never gives a smaller position, nor a larger position a smaller angle.
pub proof fn law_conversions_are_monotone(angle: i16, wider: i16, position: u16, further: u16)
    requires
        angle <= wider,
        position <= further,
    ensures
        position_of(angle) <= position_of(wider),
        angle_of(position) <= angle_of(further),
{
}

/// An angle that the servo can reach is read back from its position up to a tenth of a degree.
pub proof fn law_angle_is_read_back(angle_x10: i16)
    requires
        SERVO_MIN_POS <= unclamped_position(angle_x10) <= SERVO_MAX_POS,
    ensures
        angle_x10 - 1 <= angle_of(position_of(angle_x10) as u16) <= angle_x10,
{
}

/// The position of an angle that the servo can reach lies less than one step below the angle's exact
/// place, 80 steps to 27 tenths of a degree from the centre, on the side that the sign says; an angle
/// beyond the range gives the end of the range on that side.
pub proof fn law_position_lies_at_its_angle(angle_x10: i16)
    ensures
        ({
            let position = position_of(angle_x10);
            &&& -1350 <= angle_x10 <= 1350 ==> 27 * (position - 7500) <= 80 * angle_x10 < 27 * (
            position - 7500) + 27
            &&& angle_x10 < -1350 ==> position == 3500
            &&& angle_x10 > 1350 ==> position == 11500
        }),
{
}

/// The angle of a position is the exact one with the fraction of a tenth of a degree dropped, on
/// the side of the centre that the position is on.
pub proof fn law_angle_lies_at_its_position(position: u16)
    ensures
        ({
            let angle = angle_of(position);
            &&& position >= 7500 ==> 0 <= 80 * angle <= 27 * (position - 7500) < 80 * angle + 80
            &&& position <= 7500 ==> 0 <= -80 * angle <= 27 * (7500 - position) < -80 * angle + 80
            &&& i16::MIN <= angle <= i16::MAX
        }),
{
}

} // verus!
