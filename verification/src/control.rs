//! How the two paddles choose their velocity.

use vstd::prelude::*;
use crate::entities::Body;
use crate::geometry::Point;
use crate::units::{
    CHASE_LINE, COMPUTER_DRIFT_SPEED, COMPUTER_NEAR_SPEED, COMPUTER_SPEED, DEAD_BAND, PLAYER_SPEED,
};
use crate::world::{Court, World};

verus! {

/// The keys that are down during a frame.
#[derive(Clone, Copy, Debug, PartialEq, Eq, Structural)]
pub struct Controls {
    pub up: bool,
    pub down: bool,
    pub reset: bool,
}

/// The velocity that the keys give the player's paddle: upwards while `up`
/// is down, else downwards while `down` is down, else none. With both keys
/// down, `up` wins.
pub open spec fn player_velocity(controls: Controls) -> Point {
    Point {
        x: 0,
        y: if controls.up {
            PLAYER_SPEED as int
        } else if controls.down {
            -PLAYER_SPEED
        } else {
            0
        },
    }
}

/// The vertical speed that the computer's paddle takes when the ball is at
/// `ball` and the paddle at height `own_y`, moving at `current`.
///
/// While the ball is on the player's half the paddle drifts back to the
/// centre and rests once it is inside the dead band. While the ball is on
/// its own half it follows the ball's height, faster once the ball is
/// beyond the chase line, and keeps its speed when it is level with the
/// ball.
pub open spec fn computer_speed(ball: Point, own_y: int, current: int) -> int {
    if ball.x > 0 {
        if -DEAD_BAND < own_y < DEAD_BAND {
            0
        } else if own_y < 0 {
            COMPUTER_DRIFT_SPEED as int
        } else {
            -COMPUTER_DRIFT_SPEED
        }
    } else {
        let speed = if ball.x > -CHASE_LINE {
            COMPUTER_NEAR_SPEED
        } else {
            COMPUTER_SPEED
        };
        if ball.y < own_y {
            -speed
        } else if ball.y > own_y {
            speed as int
        } else {
            current
        }
    }
}

impl Court {
    /// The court once the keys have set the player's velocity.
    pub open spec fn player_controlled(self, controls: Controls) -> Court {
        Court { player: Body { velocity: player_velocity(controls), ..self.player }, ..self }
    }

    /// The court once the computer has chosen its vertical speed. Without a
    /// ball it keeps the speed it has.
    pub open spec fn computer_controlled(self) -> Court {
        match self.ball {
            Some(ball) => Court {
                computer: Body {
                    velocity: Point {
                        x: self.computer.velocity.x,
                        y: computer_speed(
                            ball.position,
                            self.computer.position.y,
                            self.computer.velocity.y,
                        ),
                    },
                    ..self.computer
                },
                ..self
            },
            None => self,
        }
    }
}

impl World {
    /// Sets the player's velocity from the keys.
    pub fn player_movement_control(&mut self, controls: Controls)
        ensures
            final(self)@ == old(self)@.player_controlled(controls),
    {
        let mut direction: i64 = 0;
        if controls.up {
            direction = 1;
        } else if controls.down {
            direction = -1;
        }
        self.player.velocity.0.x = 0;
        self.player.velocity.0.y = direction * PLAYER_SPEED;
    }

    /// Lets the computer choose its vertical speed from where the ball is.
    /// Without a ball nothing changes.
    pub fn computer_movement_control(&mut self)
        ensures
            final(self)@ == old(self)@.computer_controlled(),
    {
        let ball = match self.ball {
            Some(ball) => ball.transform.translation,
            None => {
                return ;
            },
        };
        let own_y: i64 = self.computer.transform.translation.y;
        if ball.x > 0 {
            if -DEAD_BAND < own_y && own_y < DEAD_BAND {
                self.computer.velocity.0.y = 0;
            } else if 0 > own_y {
                self.computer.velocity.0.y = COMPUTER_DRIFT_SPEED;
            } else if 0 < own_y {
                self.computer.velocity.0.y = -COMPUTER_DRIFT_SPEED;
            }
            return ;
        }
        let speed: i64 = if ball.x > -CHASE_LINE {
            COMPUTER_NEAR_SPEED
        } else {
            COMPUTER_SPEED
        };
        if ball.y < own_y {
            self.computer.velocity.0.y = -speed;
        } else if ball.y > own_y {
            self.computer.velocity.0.y = speed;
        }
    }
}

} // verus!
