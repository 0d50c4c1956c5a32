//! How a ball comes onto the court and how it leaves it.
//!
//! A ball that has crossed a side line is taken off the court, the point
//! goes to the side whose line it did not cross, and a fresh ball is put at
//! the centre.

use vstd::prelude::*;
use crate::chance::{random_heading, Heading, Sign};
use crate::entities::{Ball, Body};
use crate::geometry::{Collider, Point, Transform, Vec2};
use crate::score::BallDestroyed;
use crate::units::{BALL_RADIUS, EXIT_LINE};
use crate::world::{Court, World};

verus! {

/// A ball at the centre of the court that sets off along `heading`.
pub open spec fn fresh_ball(heading: Heading) -> Body {
    Body {
        position: Point { x: 0, y: 0 },
        velocity: heading.velocity(),
        size: Point { x: 2 * BALL_RADIUS, y: 2 * BALL_RADIUS },
    }
}

/// Whether a ball at `position` is out, and who wins the point. Beyond the
/// right line, which the player guards, the computer wins it; beyond the
/// left line, the player. The lines themselves are still in.
pub open spec fn exit_of(position: Point) -> Option<BallDestroyed> {
    if position.x > EXIT_LINE {
        Some(BallDestroyed { player_scored: false })
    } else if position.x < -EXIT_LINE {
        Some(BallDestroyed { player_scored: true })
    } else {
        None
    }
}

impl Court {
    /// The court with a fresh ball in place of whatever ball it had.
    pub open spec fn spawned(self, heading: Heading) -> Court {
        Court { ball: Some(fresh_ball(heading)), ..self }
    }

    /// The events that taking the ball off gives: one if the ball is out,
    /// none if it is in or there is no ball.
    pub open spec fn exits(self) -> Seq<BallDestroyed> {
        match self.ball {
            Some(ball) => match exit_of(ball.position) {
                Some(event) => seq![event],
                None => seq![],
            },
            None => seq![],
        }
    }

    /// The court without its ball, if the ball is out; else unchanged.
    pub open spec fn despawned(self) -> Court {
        if self.exits().len() > 0 {
            Court { ball: None, ..self }
        } else {
            self
        }
    }

    /// The court with a fresh ball, if `events` tells of a ball that was
    /// taken off; else unchanged.
    pub open spec fn respawned(self, events: Seq<BallDestroyed>, heading: Heading) -> Court {
        if events.len() > 0 {
            self.spawned(heading)
        } else {
            self
        }
    }
}

impl Ball {
    /// A ball at the centre of the court that sets off along `heading`.
    pub fn fresh(heading: Heading) -> (ball: Ball)
        ensures
            ball@ == fresh_ball(heading),
    {
        Ball {
            transform: Transform::from_translation(Vec2::zero()),
            collider: Collider::circle(BALL_RADIUS),
            velocity: heading.launch(),
        }
    }
}

impl World {
    /// Puts a fresh ball at the centre, setting off along `heading`.
    pub fn spawn_ball_with(&mut self, heading: Heading)
        ensures
            final(self)@ == old(self)@.spawned(heading),
    {
        self.ball = Some(Ball::fresh(heading));
    }

    /// Puts a fresh ball at the centre, setting off along a diagonal chosen
    /// by two coin flips.
    pub fn spawn_ball(&mut self)
        ensures
            exists|heading: Heading| final(self)@ == #[trigger] old(self)@.spawned(heading),
    {
        let heading = random_heading();
        self.spawn_ball_with(heading);
    }

    /// Takes the ball off the court if it is out, and tells who won the
    /// point.
    pub fn despawn_ball(&mut self) -> (events: Vec<BallDestroyed>)
        ensures
            events@ == old(self)@.exits(),
            final(self)@ == old(self)@.despawned(),
    {
        let mut events: Vec<BallDestroyed> = Vec::new();
        if let Some(ball) = self.ball {
            let x: i64 = ball.transform.translation.x;
            if x > EXIT_LINE || x < -EXIT_LINE {
                self.ball = None;
                events.push(BallDestroyed { player_scored: x < -EXIT_LINE });
            }
        }
        assert(events@ == old(self)@.exits());
        events
    }

    /// Puts a fresh ball at the centre for each event, every one setting off
    /// along `heading`. Of several, the last is the one that stays.
    pub fn respawn_ball_with(&mut self, events: &Vec<BallDestroyed>, heading: Heading)
        ensures
            final(self)@ == old(self)@.respawned(events@, heading),
    {
        let mut i: usize = 0;
        while i < events.len()
            invariant
                i <= events.len(),
                i == 0 ==> self@ == old(self)@,
                i > 0 ==> self@ == old(self)@.spawned(heading),
            decreases events.len() - i,
        {
            self.spawn_ball_with(heading);
            i = i + 1;
        }
    }

    /// Puts a fresh ball at the centre for each event, every one setting off
    /// along a diagonal of its own, chosen by two coin flips. Of several,
    /// the last is the one that stays.
    pub fn respawn_ball(&mut self, events: &Vec<BallDestroyed>)
        ensures
            exists|heading: Heading|
                final(self)@ == #[trigger] old(self)@.respawned(events@, heading),
    {
        let ghost mut last = Heading { x: Sign::Minus, y: Sign::Minus };
        let mut i: usize = 0;
        while i < events.len()
            invariant
                i <= events.len(),
                i == 0 ==> self@ == old(self)@,
                i > 0 ==> self@ == old(self)@.spawned(last),
            decreases events.len() - i,
        {
            let heading = random_heading();
            self.spawn_ball_with(heading);
            proof {
                last = heading;
            }
            i = i + 1;
        }
        assert(self@ == old(self)@.respawned(events@, last));
    }
}

} // verus!
