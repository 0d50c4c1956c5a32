//! Starting the game over without taking anything off the court.

use vstd::prelude::*;
use crate::chance::{random_heading, Heading, Sign};
use crate::entities::Body;
use crate::geometry::{Point, Vec2};
use crate::score::Scores;
use crate::units::PLAYER_START_POSITION;
use crate::world::{Court, World};

verus! {

impl Court {
    /// The court set back to the start of a game: no points scored, the
    /// paddles at their starting places, and the ball, if there is one, at
    /// the centre and setting off along `heading`. Sizes, walls and the
    /// paddles' velocities stay as they are.
    pub open spec fn reset(self, heading: Heading) -> Court {
        Court {
            scores: Scores { player: 0, computer: 0 },
            ball: match self.ball {
                Some(ball) => Some(
                    Body { position: Point { x: 0, y: 0 }, velocity: heading.velocity(), ..ball },
                ),
                None => None,
            },
            computer: Body {
                position: Point { x: -PLAYER_START_POSITION, y: 0 },
                ..self.computer
            },
            player: Body {
                position: Point { x: PLAYER_START_POSITION as int, y: 0 },
                ..self.player
            },
            ..self
        }
    }

    /// The court after a frame's look at the reset key: set back if the key
    /// is down, else unchanged.
    pub open spec fn reset_on(self, pressed: bool, heading: Heading) -> Court {
        if pressed {
            self.reset(heading)
        } else {
            self
        }
    }
}

impl World {
    /// Clears the scoreboard and puts the paddles at their starting places.
    fn restart(&mut self)
        ensures
            *final(self) == (World {
                scoreboard: final(self).scoreboard,
                computer: final(self).computer,
                player: final(self).player,
                ..*old(self)
            }),
            final(self).scoreboard@ == (Scores { player: 0, computer: 0 }),
            final(self).computer@ == (Body {
                position: Point { x: -PLAYER_START_POSITION, y: 0 },
                ..old(self).computer@
            }),
            final(self).player@ == (Body {
                position: Point { x: PLAYER_START_POSITION as int, y: 0 },
                ..old(self).player@
            }),
    {
        self.scoreboard.player = 0;
        self.scoreboard.computer = 0;
        self.computer.transform.translation = Vec2::new(-PLAYER_START_POSITION, 0);
        self.player.transform.translation = Vec2::new(PLAYER_START_POSITION, 0);
    }

    /// Puts the ball, if there is one, at the centre, setting off along
    /// `heading`.
    fn relaunch(&mut self, heading: Heading)
        ensures
            *final(self) == (World { ball: final(self).ball, ..*old(self) }),
            final(self)@.ball == match old(self)@.ball {
                Some(ball) => Some(
                    Body { position: Point { x: 0, y: 0 }, velocity: heading.velocity(), ..ball },
                ),
                None => None,
            },
    {
        if let Some(ball) = self.ball {
            let mut ball = ball;
            ball.transform.translation = Vec2::zero();
            ball.velocity = heading.launch();
            self.ball = Some(ball);
        }
    }

    /// Sets the game back to its start, the ball setting off along
    /// `heading`.
    pub fn reset_with(&mut self, heading: Heading)
        ensures
            final(self)@ == old(self)@.reset(heading),
    {
        self.restart();
        self.relaunch(heading);
    }

    /// Sets the game back to its start if the reset key is down, the ball
    /// setting off along a diagonal chosen by two coin flips.
    pub fn reset_on_r(&mut self, pressed: bool)
        ensures
            exists|heading: Heading|
                final(self)@ == #[trigger] old(self)@.reset_on(pressed, heading),
    {
        let ghost mut chosen = Heading { x: Sign::Minus, y: Sign::Minus };
        if pressed {
            self.restart();
            if self.ball.is_some() {
                let heading = random_heading();
                self.relaunch(heading);
                proof {
                    chosen = heading;
                }
            }
        }
        assert(self@ == old(self)@.reset_on(pressed, chosen));
    }
}

/// A second reset right after a first leaves the court as a single reset
/// along the second diagonal would: what the first one set is set again to
/// the same values, and only the ball's diagonal is chosen anew.
pub proof fn reset_twice_is_reset_once(court: Court, first: Heading, second: Heading)
    ensures
        court.reset(first).reset(second) == court.reset(second),
        court.reset(first).reset(first) == court.reset(first),
{
}

} // verus!
