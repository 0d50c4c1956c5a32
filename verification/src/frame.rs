//! One frame of the game: every rule once, in a fixed order.
//!
//! The reset key is looked at first. Then the paddles choose their
//! velocities, the ball comes off what it touches where it stands, everything
//! moves, a ball that is out is taken off, the point is given, and a fresh
//! ball is put at the centre. Collisions are tested before the move, so the
//! ball may lie across a paddle for one frame before it turns.

use vstd::prelude::*;
use crate::chance::Heading;
use crate::control::Controls;
use crate::score::{points, BallCollided, BallDestroyed};
use crate::world::{Court, World};

verus! {

/// What a frame gave off, for whoever plays the sounds.
#[derive(Debug, PartialEq, Eq)]
pub struct FrameReport {
    /// One event for each wall or paddle that the ball touched.
    pub collided: Vec<BallCollided>,
    /// One event if the ball was taken off the court.
    pub destroyed: Vec<BallDestroyed>,
    /// How often the score sound is due.
    pub score_sounds: usize,
}

impl Court {
    /// The court once the reset key has been looked at and both paddles have
    /// chosen their velocities.
    pub open spec fn aimed(self, controls: Controls, reset_heading: Heading) -> Court {
        self.reset_on(controls.reset, reset_heading).player_controlled(
            controls,
        ).computer_controlled()
    }

    /// The court once everything has moved: the paddles aim, the ball comes
    /// off what it touches, then all move for `elapsed` microseconds.
    pub open spec fn after_move(self, controls: Controls, elapsed: int, reset_heading: Heading)
        -> Court {
        self.aimed(controls, reset_heading).collided().moved(elapsed)
    }

    /// The court once each of `events` has given its point.
    pub open spec fn awarded(self, events: Seq<BallDestroyed>) -> Court {
        Court { scores: self.scores.awarded(events), ..self }
    }

    /// The court a frame later. `reset_heading` is the diagonal for a ball
    /// that the reset key sends off, `spawn_heading` the one for a ball that
    /// replaces one taken off.
    pub open spec fn frame(
        self,
        controls: Controls,
        elapsed: int,
        reset_heading: Heading,
        spawn_heading: Heading,
    ) -> Court {
        let moved = self.after_move(controls, elapsed, reset_heading);
        let events = moved.exits();
        moved.despawned().awarded(events).respawned(events, spawn_heading)
    }

    /// Whether the machine can hold every value that the frame computes: the
    /// ball's velocity reversed, every position after the move, and the
    /// counters after the point.
    pub open spec fn can_frame(self, controls: Controls, elapsed: int, reset_heading: Heading)
        -> bool {
        let aimed = self.aimed(controls, reset_heading);
        let moved = self.after_move(controls, elapsed, reset_heading);
        &&& aimed.can_collide()
        &&& aimed.collided().can_move(elapsed)
        &&& moved.scores.awarded(moved.exits()).in_range()
    }
}

/// Whether `after` and `report` are what a frame makes of `before`.
///
/// Where the machine can hold every value that the frame computes, the world
/// is the court a frame later and the report holds an event for each touch
/// and for the ball taken off, and one score sound for a point of the
/// player. Otherwise there is no report and the world is unchanged.
pub open spec fn frame_outcome(
    before: World,
    after: World,
    report: Option<FrameReport>,
    controls: Controls,
    elapsed: u32,
    reset_heading: Heading,
    spawn_heading: Heading,
) -> bool {
    let moved = before@.after_move(controls, elapsed as int, reset_heading);
    match report {
        Some(report) => {
            &&& before@.can_frame(controls, elapsed as int, reset_heading)
            &&& after@ == before@.frame(controls, elapsed as int, reset_heading, spawn_heading)
            &&& report.collided@ == before@.aimed(controls, reset_heading).collision_events()
            &&& report.destroyed@ == moved.exits()
            &&& report.score_sounds == points(moved.exits(), true)
        },
        None => {
            &&& !before@.can_frame(controls, elapsed as int, reset_heading)
            &&& after == before
        },
    }
}

impl World {
    /// Plays one frame of `elapsed` microseconds with the given keys down
    /// and the given diagonals for a ball that is sent off.
    pub fn frame_with(
        &mut self,
        controls: Controls,
        elapsed: u32,
        reset_heading: Heading,
        spawn_heading: Heading,
    ) -> (report: Option<FrameReport>)
        ensures
            frame_outcome(
                *old(self),
                *final(self),
                report,
                controls,
                elapsed,
                reset_heading,
                spawn_heading,
            ),
    {
        let mut next: World = *self;
        if controls.reset {
            next.reset_with(reset_heading);
        }
        next.player_movement_control(controls);
        next.computer_movement_control();
        if !next.can_collide() {
            return None;
        }
        let collided = next.ball_collision();
        if !next.can_move(elapsed) {
            return None;
        }
        next.velocity_movement(elapsed);
        let destroyed = next.despawn_ball();
        if !next.scoreboard.can_award(&destroyed) {
            return None;
        }
        let score_sounds = next.scoreboard.award_points(&destroyed);
        next.respawn_ball_with(&destroyed, spawn_heading);
        *self = next;
        Some(FrameReport { collided, destroyed, score_sounds })
    }

    /// Plays one frame of `elapsed` microseconds with the given keys down.
    /// A ball that is sent off takes a diagonal chosen by coin flips.
    pub fn frame(&mut self, controls: Controls, elapsed: u32) -> (report: Option<FrameReport>)
        ensures
            exists|reset_heading: Heading, spawn_heading: Heading| #[trigger]
                frame_outcome(
                    *old(self),
                    *final(self),
                    report,
                    controls,
                    elapsed,
                    reset_heading,
                    spawn_heading,
                ),
    {
        let mut next: World = *self;
        next.reset_on_r(controls.reset);
        let ghost reset_heading = choose|heading: Heading|
            next@ == #[trigger] self@.reset_on(controls.reset, heading);
        next.player_movement_control(controls);
        next.computer_movement_control();
        if !next.can_collide() {
            assert(frame_outcome(
                *old(self),
                *self,
                None,
                controls,
                elapsed,
                reset_heading,
                reset_heading,
            ));
            return None;
        }
        let collided = next.ball_collision();
        if !next.can_move(elapsed) {
            assert(frame_outcome(
                *old(self),
                *self,
                None,
                controls,
                elapsed,
                reset_heading,
                reset_heading,
            ));
            return None;
        }
        next.velocity_movement(elapsed);
        let destroyed = next.despawn_ball();
        if !next.scoreboard.can_award(&destroyed) {
            assert(frame_outcome(
                *old(self),
                *self,
                None,
                controls,
                elapsed,
                reset_heading,
                reset_heading,
            ));
            return None;
        }
        let score_sounds = next.scoreboard.award_points(&destroyed);
        let ghost awarded = next@;
        next.respawn_ball(&destroyed);
        let ghost spawn_heading = choose|heading: Heading|
            next@ == #[trigger] awarded.respawned(destroyed@, heading);
        *self = next;
        let report = Some(FrameReport { collided, destroyed, score_sounds });
        assert(frame_outcome(
            *old(self),
            *self,
            report,
            controls,
            elapsed,
            reset_heading,
            spawn_heading,
        ));
        report
    }
}

} // verus!
