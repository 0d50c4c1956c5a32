//! The one source of chance: the diagonal along which a new ball sets off.

use rand::Rng;
use vstd::prelude::*;
use crate::geometry::{Point, Vec2, Velocity};
use crate::units::BALL_AXIS_SPEED;

verus! {

/// The outcome of a coin flip: a direction along one axis.
#[derive(Clone, Copy, Debug, PartialEq, Eq, Structural)]
pub enum Sign {
    Minus,
    Plus,
}

impl Sign {
    /// The sign as a number: -1 or 1.
    pub open spec fn factor(self) -> int {
        match self {
            Sign::Minus => -1,
            Sign::Plus => 1,
        }
    }

    /// The sign as a number: -1 or 1.
    pub fn number(self) -> (n: i64)
        ensures
            n == self.factor(),
    {
        match self {
            Sign::Minus => -1,
            Sign::Plus => 1,
        }
    }
}

/// One of the four diagonals.
#[derive(Clone, Copy, Debug, PartialEq, Eq, Structural)]
pub struct Heading {
    pub x: Sign,
    pub y: Sign,
}

impl Heading {
    /// The velocity of a ball that sets off along this diagonal: the ball's
    /// axis speed along each axis, in the direction of the sign.
    pub open spec fn velocity(self) -> Point {
        Point { x: self.x.factor() * BALL_AXIS_SPEED, y: self.y.factor() * BALL_AXIS_SPEED }
    }

    /// The velocity of a ball that sets off along this diagonal.
    pub fn launch(self) -> (velocity: Velocity)
        ensures
            velocity@ == self.velocity(),
    {
        Velocity(Vec2::new(self.x.number() * BALL_AXIS_SPEED, self.y.number() * BALL_AXIS_SPEED))
    }
}

/// Draws a number from the thread's generator: `rand::thread_rng()`, then
/// `Rng::gen` for a `u32`. Any number may come back, so nothing is claimed
/// of it. The generator is seeded by the system on its first use in a
/// thread and panics there if the system has no random numbers to give.
#[verifier::external_body]
fn random_number() -> u32 {
    rand::thread_rng().gen::<u32>()
}

/// The sign that a drawn number stands for: `Minus` for an even number,
/// `Plus` for an odd one.
pub fn sign_of(number: u32) -> (sign: Sign)
    ensures
        sign == (if number % 2 == 0 {
            Sign::Minus
        } else {
            Sign::Plus
        }),
{
    if number % 2 == 0 {
        Sign::Minus
    } else {
        Sign::Plus
    }
}

/// Flips a coin.
pub fn coin_flip() -> Sign {
    sign_of(random_number())
}

/// Flips a coin for each axis.
pub fn random_heading() -> Heading {
    let x = coin_flip();
    let y = coin_flip();
    Heading { x, y }
}

/// Whatever the diagonal, the ball's speed, rounded down to a whole number,
/// is the nominal speed.
pub proof fn heading_keeps_ball_speed(heading: Heading)
    ensures
        ({
            let v = heading.velocity();
            let speed = crate::units::BALL_SPEED as int;
            speed * speed <= v.x * v.x + v.y * v.y < (speed + 1) * (speed + 1)
        }),
{
    let v = heading.velocity();
    assert(v.x * v.x == 245025) by (nonlinear_arith)
        requires
            v.x == 495 || v.x == -495,
    ;
    assert(v.y * v.y == 245025) by (nonlinear_arith)
        requires
            v.y == 495 || v.y == -495,
    ;
}

} // verus!
