//! The court's dimensions and the speeds of what moves on it.
//!
//! One court unit is `UNIT` length counts. Speeds are in court units per
//! second, which is the same as length counts per microsecond.

use vstd::prelude::*;

verus! {

/// Length counts in one court unit.
pub const UNIT: i64 = 1_000_000;

/// Width of the court.
pub const COURT_WIDTH: i64 = 1920 * UNIT;

/// Distance of either paddle from the centre line: a quarter plus a fifth of
/// the court's width.
pub const PLAYER_START_POSITION: i64 = 864 * UNIT;

/// Distance from the centre to the inner face of either wall.
pub const WALL_HEIGHT: i64 = 540 * UNIT;

/// Thickness of a wall.
pub const WALL_THICKNESS: i64 = 10 * UNIT;

/// Width of a paddle.
pub const PADDLE_WIDTH: i64 = 17 * UNIT;

/// Height of a paddle.
pub const PADDLE_HEIGHT: i64 = 120 * UNIT;

/// Radius of the ball.
pub const BALL_RADIUS: i64 = 15 * UNIT;

/// How far beyond a side edge of the court the ball must be to count as out.
pub const EXIT_MARGIN: i64 = 10 * UNIT;

/// Distance from the centre line beyond which the ball is out: half the
/// court's width plus the margin.
pub const EXIT_LINE: i64 = 970 * UNIT;

/// Half-width of the band around the centre in which the idle computer
/// paddle rests.
pub const DEAD_BAND: i64 = 50 * UNIT;

/// Distance from the centre line, on the computer's side, from which the
/// computer chases the ball at full speed: 27.5% of the court's width.
pub const CHASE_LINE: i64 = 528 * UNIT;

/// Speed of the player's paddle.
pub const PLAYER_SPEED: i64 = 550;

/// Full speed of the computer's paddle.
pub const COMPUTER_SPEED: i64 = 500;

/// Speed of the computer's paddle while the ball is near the centre line:
/// 70% of its full speed.
pub const COMPUTER_NEAR_SPEED: i64 = 350;

/// Speed at which the idle computer paddle drifts back to the centre: half
/// its full speed.
pub const COMPUTER_DRIFT_SPEED: i64 = 250;

/// Nominal speed of the ball.
pub const BALL_SPEED: i64 = 700;

/// Speed of the ball along each axis. The ball always travels diagonally,
/// so this is the nominal speed divided by the square root of two, rounded
/// up to a whole number.
pub const BALL_AXIS_SPEED: i64 = 495;

/// The constants that are derived from others have the values they are
/// derived from.
pub proof fn derived_constants()
    ensures
        PLAYER_START_POSITION == COURT_WIDTH / 4 + COURT_WIDTH / 5,
        EXIT_LINE == COURT_WIDTH / 2 + EXIT_MARGIN,
        CHASE_LINE * 1000 == COURT_WIDTH * 275,
        COMPUTER_NEAR_SPEED * 10 == COMPUTER_SPEED * 7,
        COMPUTER_DRIFT_SPEED * 2 == COMPUTER_SPEED,
{
}

/// The axis speed of the ball is the least whole number whose diagonal is
/// at least the nominal speed, and that diagonal, rounded down to a whole
/// number, is the nominal speed.
pub proof fn ball_axis_speed_is_diagonal()
    ensures
        2 * (BALL_AXIS_SPEED - 1) * (BALL_AXIS_SPEED - 1) < BALL_SPEED * BALL_SPEED,
        BALL_SPEED * BALL_SPEED <= 2 * BALL_AXIS_SPEED * BALL_AXIS_SPEED,
        2 * BALL_AXIS_SPEED * BALL_AXIS_SPEED < (BALL_SPEED + 1) * (BALL_SPEED + 1),
{
}

} // verus!
