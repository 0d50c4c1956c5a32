//! What holds of a game however long it is played.

use vstd::prelude::*;
use crate::chance::Heading;
use crate::collision::rebounds_keep_axis_speeds;
use crate::control::Controls;
use crate::entities::Body;
use crate::geometry::Point;
use crate::score::{points, BallDestroyed, Scores};
use crate::units::{BALL_AXIS_SPEED, BALL_RADIUS, PLAYER_START_POSITION, WALL_HEIGHT, WALL_THICKNESS};
use crate::world::{wall_at, Court};

verus! {

/// What goes into one frame: the keys, the time, and the diagonals for a
/// ball that is sent off.
pub struct Step {
    pub controls: Controls,
    pub elapsed: nat,
    pub reset_heading: Heading,
    pub spawn_heading: Heading,
}

/// The court after the frames of `steps`, one after the other.
pub open spec fn run(court: Court, steps: Seq<Step>) -> Court
    decreases steps.len(),
{
    if steps.len() == 0 {
        court
    } else {
        let step = steps.last();
        run(court, steps.drop_last()).frame(
            step.controls,
            step.elapsed as int,
            step.reset_heading,
            step.spawn_heading,
        )
    }
}

/// The court when play begins: laid out, with the first ball on it.
pub open spec fn kickoff(first: Heading) -> Court {
    Court::empty().spawned(first)
}

/// Whether a ball travels along a diagonal at the ball's speed.
pub open spec fn at_ball_speed(ball: Body) -> bool {
    &&& ball.velocity.x == BALL_AXIS_SPEED || ball.velocity.x == -BALL_AXIS_SPEED
    &&& ball.velocity.y == BALL_AXIS_SPEED || ball.velocity.y == -BALL_AXIS_SPEED
}

/// What holds of a court in play: there is a ball, of the ball's size and
/// travelling diagonally at the ball's speed; each paddle stands on its own
/// line with no speed along the court; and the walls are where they were
/// built.
pub open spec fn in_play(court: Court) -> bool {
    &&& court.ball matches Some(ball)
    &&& at_ball_speed(ball)
    &&& ball.size == (Point { x: 2 * BALL_RADIUS, y: 2 * BALL_RADIUS })
    &&& court.player.position.x == PLAYER_START_POSITION
    &&& court.player.velocity.x == 0
    &&& court.computer.position.x == -PLAYER_START_POSITION
    &&& court.computer.velocity.x == 0
    &&& court.top_wall == wall_at(WALL_HEIGHT + WALL_THICKNESS)
    &&& court.bottom_wall == wall_at(-WALL_HEIGHT - WALL_THICKNESS)
}

/// The game begins in play.
pub proof fn kickoff_is_in_play(first: Heading)
    ensures
        in_play(kickoff(first)),
{
}

/// A frame keeps a court in play: the paddles move only up and down, the
/// walls do not move, and the ball, turned or replaced, travels diagonally
/// at the ball's speed.
pub proof fn frame_keeps_in_play(
    court: Court,
    controls: Controls,
    elapsed: int,
    reset_heading: Heading,
    spawn_heading: Heading,
)
    requires
        in_play(court),
    ensures
        in_play(court.frame(controls, elapsed, reset_heading, spawn_heading)),
{
    let aimed = court.aimed(controls, reset_heading);
    let ball = aimed.ball->0;
    rebounds_keep_axis_speeds(ball.velocity, ball.block(), aimed.others());
}

/// After any number of frames the game is still in play.
pub proof fn always_in_play(first: Heading, steps: Seq<Step>)
    ensures
        in_play(run(kickoff(first), steps)),
    decreases steps.len(),
{
    if steps.len() > 0 {
        let step = steps.last();
        always_in_play(first, steps.drop_last());
        frame_keeps_in_play(
            run(kickoff(first), steps.drop_last()),
            step.controls,
            step.elapsed as int,
            step.reset_heading,
            step.spawn_heading,
        );
    }
}

/// A frame leaves a ball on a court that had one, and none on a court that
/// had none: a ball that is taken off is replaced within the frame.
pub proof fn frame_keeps_the_ball(
    court: Court,
    controls: Controls,
    elapsed: int,
    reset_heading: Heading,
    spawn_heading: Heading,
)
    ensures
        court.frame(controls, elapsed, reset_heading, spawn_heading).ball is Some <==> court.ball is Some,
{
}

/// From the first frame on, and after any number of frames, there is a ball
/// on the court. The court holds at most one ball by its shape, so there is
/// exactly one.
pub proof fn always_one_ball(first: Heading, steps: Seq<Step>)
    ensures
        run(kickoff(first), steps).ball is Some,
    decreases steps.len(),
{
    if steps.len() > 0 {
        let step = steps.last();
        always_one_ball(first, steps.drop_last());
        frame_keeps_the_ball(
            run(kickoff(first), steps.drop_last()),
            step.controls,
            step.elapsed as int,
            step.reset_heading,
            step.spawn_heading,
        );
    }
}

/// Giving points never lowers a counter.
pub proof fn award_never_lowers(scores: Scores, events: Seq<BallDestroyed>)
    ensures
        scores.awarded(events).player >= scores.player,
        scores.awarded(events).computer >= scores.computer,
{
}

/// A frame without the reset key never lowers a counter, and it gives at
/// most one point.
pub proof fn frame_never_lowers_scores(
    court: Court,
    controls: Controls,
    elapsed: int,
    reset_heading: Heading,
    spawn_heading: Heading,
)
    requires
        !controls.reset,
    ensures
        ({
            let next = court.frame(controls, elapsed, reset_heading, spawn_heading);
            &&& court.scores.player <= next.scores.player
            &&& court.scores.computer <= next.scores.computer
            &&& next.scores.player + next.scores.computer <= court.scores.player
                + court.scores.computer + 1
        }),
{
    let moved = court.after_move(controls, elapsed, reset_heading);
    one_event_one_point(moved.exits());
}

/// At most one event gives at most one point, to the side that it names.
proof fn one_event_one_point(events: Seq<BallDestroyed>)
    requires
        events.len() <= 1,
    ensures
        points(events, true) + points(events, false) == events.len(),
{
    if events.len() == 1 {
        assert(events.drop_last().len() == 0);
        assert(points(events.drop_last(), true) == 0);
        assert(points(events.drop_last(), false) == 0);
    }
}

/// A reset sets both counters to exactly zero.
pub proof fn reset_clears_scores(court: Court, heading: Heading)
    ensures
        court.reset(heading).scores == (Scores { player: 0, computer: 0 }),
{
}

/// Over any number of frames in which the reset key is never down, no
/// counter ever goes down.
pub proof fn scores_never_go_down(court: Court, steps: Seq<Step>)
    requires
        forall|i: int| 0 <= i < steps.len() ==> !(#[trigger] steps[i]).controls.reset,
    ensures
        court.scores.player <= run(court, steps).scores.player,
        court.scores.computer <= run(court, steps).scores.computer,
    decreases steps.len(),
{
    if steps.len() > 0 {
        let step = steps.last();
        let earlier = steps.drop_last();
        assert forall|i: int| 0 <= i < earlier.len() implies !(#[trigger] earlier[i]).controls.reset by {
            assert(earlier[i] == steps[i]);
        }
        scores_never_go_down(court, earlier);
        frame_never_lowers_scores(
            run(court, earlier),
            step.controls,
            step.elapsed as int,
            step.reset_heading,
            step.spawn_heading,
        );
    }
}

} // verus!
