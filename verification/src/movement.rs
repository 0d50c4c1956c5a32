//! How positions follow velocities.

use vstd::prelude::*;
use crate::entities::Body;
use crate::geometry::{Point, Vec2};
use crate::world::{Court, World};

verus! {

/// Where something that starts at `position` and moves at `velocity` is
/// after `elapsed` microseconds.
pub open spec fn advanced(position: Point, velocity: Point, elapsed: int) -> Point {
    Point { x: position.x + velocity.x * elapsed, y: position.y + velocity.y * elapsed }
}

impl Body {
    /// The body after `elapsed` microseconds at its velocity.
    pub open spec fn moved(self, elapsed: int) -> Body {
        Body { position: advanced(self.position, self.velocity, elapsed), ..self }
    }
}

impl Court {
    /// The court after the paddles and the ball have moved for `elapsed`
    /// microseconds. Nothing holds a paddle back at the edge of the court.
    pub open spec fn moved(self, elapsed: int) -> Court {
        Court {
            player: self.player.moved(elapsed),
            computer: self.computer.moved(elapsed),
            ball: match self.ball {
                Some(ball) => Some(ball.moved(elapsed)),
                None => None,
            },
            ..self
        }
    }

    /// Whether the paddles and the ball stay within the machine's range
    /// when they move for `elapsed` microseconds.
    pub open spec fn can_move(self, elapsed: int) -> bool {
        &&& self.player.moved(elapsed).position.in_range()
        &&& self.computer.moved(elapsed).position.in_range()
        &&& match self.ball {
            Some(ball) => ball.moved(elapsed).position.in_range(),
            None => true,
        }
    }
}

/// The product of a coordinate of a velocity and a time stays far inside
/// the range of the wide integers that movement is computed in.
proof fn displacement_bound(velocity: i64, elapsed: u32)
    ensures
        -0x8000_0000_0000_0000_0000_0000 <= velocity * elapsed <= 0x8000_0000_0000_0000_0000_0000,
{
    assert(-0x8000_0000_0000_0000_0000_0000 <= velocity * elapsed
        <= 0x8000_0000_0000_0000_0000_0000) by (nonlinear_arith)
        requires
            -0x8000_0000_0000_0000 <= velocity <= 0x8000_0000_0000_0000,
            0 <= elapsed <= 0x1_0000_0000,
    ;
}

/// One coordinate after `elapsed` microseconds, if the machine can hold it.
fn advance(position: i64, velocity: i64, elapsed: u32) -> (reached: Option<i64>)
    ensures
        reached == (if i64::MIN <= position + velocity * elapsed <= i64::MAX {
            Some((position + velocity * elapsed) as i64)
        } else {
            None
        }),
{
    proof {
        displacement_bound(velocity, elapsed);
    }
    let target: i128 = position as i128 + (velocity as i128) * (elapsed as i128);
    if target < i64::MIN as i128 || target > i64::MAX as i128 {
        None
    } else {
        Some(target as i64)
    }
}

/// Where something is after `elapsed` microseconds, if the machine can hold
/// both coordinates.
pub fn advance_position(position: Vec2, velocity: Vec2, elapsed: u32) -> (reached: Option<Vec2>)
    ensures
        reached is Some <==> advanced(position@, velocity@, elapsed as int).in_range(),
        reached is Some ==> reached->0@ == advanced(position@, velocity@, elapsed as int),
{
    match (advance(position.x, velocity.x, elapsed), advance(position.y, velocity.y, elapsed)) {
        (Some(x), Some(y)) => Some(Vec2 { x, y }),
        _ => None,
    }
}

impl World {
    /// Whether the paddles and the ball stay within the machine's range
    /// when they move for `elapsed` microseconds.
    pub fn can_move(&self, elapsed: u32) -> (fits: bool)
        ensures
            fits == self@.can_move(elapsed as int),
    {
        let player = advance_position(
            self.player.transform.translation,
            self.player.velocity.0,
            elapsed,
        );
        let computer = advance_position(
            self.computer.transform.translation,
            self.computer.velocity.0,
            elapsed,
        );
        let ball = match self.ball {
            Some(ball) => advance_position(ball.transform.translation, ball.velocity.0, elapsed).is_some(),
            None => true,
        };
        player.is_some() && computer.is_some() && ball
    }

    /// Moves the paddles and the ball for `elapsed` microseconds, each at its
    /// velocity.
    pub fn velocity_movement(&mut self, elapsed: u32)
        requires
            old(self)@.can_move(elapsed as int),
        ensures
            final(self)@ == old(self)@.moved(elapsed as int),
    {
        if let Some(reached) = advance_position(
            self.player.transform.translation,
            self.player.velocity.0,
            elapsed,
        ) {
            self.player.transform.translation = reached;
        }
        if let Some(reached) = advance_position(
            self.computer.transform.translation,
            self.computer.velocity.0,
            elapsed,
        ) {
            self.computer.transform.translation = reached;
        }
        if let Some(ball) = self.ball {
            if let Some(reached) = advance_position(
                ball.transform.translation,
                ball.velocity.0,
                elapsed,
            ) {
                let mut ball = ball;
                ball.transform.translation = reached;
                self.ball = Some(ball);
            }
        }
    }
}

} // verus!
