//! Where two axis-aligned boxes touch, and how the ball comes off.
//!
//! A box is given by its centre and its size. Edges are compared at twice
//! their coordinate, so that half an odd size needs no rounding.

use vstd::prelude::*;
use crate::entities::{Block, Body};
use crate::geometry::{Collider, Point, Transform, Vec2, Velocity};
use crate::score::BallCollided;
use crate::world::{Court, World};

verus! {

/// The side of the second box that the first box lies across.
#[derive(Clone, Copy, Debug, PartialEq, Eq, Structural)]
pub enum Collision {
    Left,
    Right,
    Top,
    Bottom,
    /// The boxes overlap and the first lies across no edge of the second.
    Inside,
}

/// Twice the lower edge, along one axis, of a box `size` wide centred on
/// `position`.
pub open spec fn low_edge(position: int, size: int) -> int {
    2 * position - size
}

/// Twice the upper edge, along one axis, of a box `size` wide centred on
/// `position`.
pub open spec fn high_edge(position: int, size: int) -> int {
    2 * position + size
}

/// Whether two boxes share more than an edge along one axis.
pub open spec fn overlap(a: int, a_size: int, b: int, b_size: int) -> bool {
    low_edge(a, a_size) < high_edge(b, b_size) && high_edge(a, a_size) > low_edge(b, b_size)
}

/// An edge of the second box that the first box lies across: the upper one
/// (`high`) or the lower one, and twice how far the first box reaches beyond
/// it.
pub struct Crossing {
    pub high: bool,
    pub depth: int,
}

/// The edge of the second box, along one axis, that the first box lies
/// across. The first box lies across the lower edge when it begins before
/// that edge and ends strictly between the two edges, and across the upper
/// edge when it begins strictly between the two edges and ends beyond the
/// upper one.
pub open spec fn crossing(a: int, a_size: int, b: int, b_size: int) -> Option<Crossing> {
    let a_low = low_edge(a, a_size);
    let a_high = high_edge(a, a_size);
    let b_low = low_edge(b, b_size);
    let b_high = high_edge(b, b_size);
    if a_low < b_low && b_low < a_high && a_high < b_high {
        Some(Crossing { high: false, depth: a_high - b_low })
    } else if b_low < a_low && a_low < b_high && b_high < a_high {
        Some(Crossing { high: true, depth: b_high - a_low })
    } else {
        None
    }
}

/// The side named by an edge along the horizontal axis.
pub open spec fn side_x(c: Crossing) -> Collision {
    if c.high {
        Collision::Right
    } else {
        Collision::Left
    }
}

/// The side named by an edge along the vertical axis.
pub open spec fn side_y(c: Crossing) -> Collision {
    if c.high {
        Collision::Top
    } else {
        Collision::Bottom
    }
}

/// Where the box `a_size` around `a_pos` touches the box `b_size` around
/// `b_pos`: nowhere unless they overlap along both axes; else the side of
/// the second box that the first lies across, and of two such sides the
/// vertical one only where the first box reaches less far beyond it.
pub open spec fn collision(a_pos: Point, a_size: Point, b_pos: Point, b_size: Point) -> Option<
    Collision,
> {
    if overlap(a_pos.x, a_size.x, b_pos.x, b_size.x) && overlap(
        a_pos.y,
        a_size.y,
        b_pos.y,
        b_size.y,
    ) {
        let along_x = crossing(a_pos.x, a_size.x, b_pos.x, b_size.x);
        let along_y = crossing(a_pos.y, a_size.y, b_pos.y, b_size.y);
        Some(
            match (along_x, along_y) {
                (Some(x), Some(y)) => if y.depth < x.depth {
                    side_y(y)
                } else {
                    side_x(x)
                },
                (Some(x), None) => side_x(x),
                (None, Some(y)) => side_y(y),
                (None, None) => Collision::Inside,
            },
        )
    } else {
        None
    }
}

/// The velocity with which a ball comes off a collision: a hit on the left
/// or right side reverses the horizontal part, a hit on the top or bottom
/// reverses the vertical part, and a ball inside keeps its velocity.
pub open spec fn rebound(velocity: Point, side: Collision) -> Point {
    match side {
        Collision::Left | Collision::Right => Point { x: -velocity.x, y: velocity.y },
        Collision::Top | Collision::Bottom => Point { x: velocity.x, y: -velocity.y },
        Collision::Inside => velocity,
    }
}

/// Twice the two edges of a box along one axis.
fn edges(position: i64, size: i64) -> (e: (i128, i128))
    ensures
        e.0 == low_edge(position as int, size as int),
        e.1 == high_edge(position as int, size as int),
{
    let centre: i128 = 2 * (position as i128);
    (centre - size as i128, centre + size as i128)
}

/// Whether two boxes share more than an edge along one axis.
fn overlapping(a: i64, a_size: i64, b: i64, b_size: i64) -> (shared: bool)
    ensures
        shared == overlap(a as int, a_size as int, b as int, b_size as int),
{
    let (a_low, a_high) = edges(a, a_size);
    let (b_low, b_high) = edges(b, b_size);
    a_low < b_high && a_high > b_low
}

/// The edge of the second box, along one axis, that the first box lies
/// across: whether it is the upper one, and twice the depth.
fn crossed(a: i64, a_size: i64, b: i64, b_size: i64) -> (c: Option<(bool, i128)>)
    ensures
        match (crossing(a as int, a_size as int, b as int, b_size as int), c) {
            (Some(edge), Some(found)) => found.0 == edge.high && found.1 == edge.depth,
            (None, None) => true,
            _ => false,
        },
{
    let (a_low, a_high) = edges(a, a_size);
    let (b_low, b_high) = edges(b, b_size);
    if a_low < b_low && a_high > b_low && a_high < b_high {
        Some((false, a_high - b_low))
    } else if a_low > b_low && a_low < b_high && a_high > b_high {
        Some((true, b_high - a_low))
    } else {
        None
    }
}

/// The side named by an edge along the horizontal axis.
fn horizontal(high: bool) -> (side: Collision)
    ensures
        forall|depth: int| side == side_x(Crossing { high, depth }),
{
    if high {
        Collision::Right
    } else {
        Collision::Left
    }
}

/// The side named by an edge along the vertical axis.
fn vertical(high: bool) -> (side: Collision)
    ensures
        forall|depth: int| side == side_y(Crossing { high, depth }),
{
    if high {
        Collision::Top
    } else {
        Collision::Bottom
    }
}

/// Where the box `a_size` around `a_pos` touches the box `b_size` around
/// `b_pos`, if it does.
pub fn collide(a_pos: Vec2, a_size: Vec2, b_pos: Vec2, b_size: Vec2) -> (side: Option<Collision>)
    ensures
        side == collision(a_pos@, a_size@, b_pos@, b_size@),
{
    if overlapping(a_pos.x, a_size.x, b_pos.x, b_size.x) && overlapping(
        a_pos.y,
        a_size.y,
        b_pos.y,
        b_size.y,
    ) {
        let along_x = crossed(a_pos.x, a_size.x, b_pos.x, b_size.x);
        let along_y = crossed(a_pos.y, a_size.y, b_pos.y, b_size.y);
        let side = match (along_x, along_y) {
            (Some((x_high, x_depth)), Some((y_high, y_depth))) => {
                if y_depth < x_depth {
                    vertical(y_high)
                } else {
                    horizontal(x_high)
                }
            },
            (Some((x_high, _)), None) => horizontal(x_high),
            (None, Some((y_high, _))) => vertical(y_high),
            (None, None) => Collision::Inside,
        };
        Some(side)
    } else {
        None
    }
}

impl Velocity {
    /// Whether both parts of the velocity can be reversed.
    pub fn can_reverse(&self) -> (fits: bool)
        ensures
            fits == self@.reversed().in_range(),
    {
        self.0.x > i64::MIN && self.0.y > i64::MIN
    }

    /// Turns the velocity as a collision on `side` turns it.
    pub fn rebound(&mut self, side: Collision)
        requires
            rebound(old(self)@, side).in_range(),
        ensures
            final(self)@ == rebound(old(self)@, side),
    {
        match side {
            Collision::Left | Collision::Right => {
                self.0.x = -self.0.x;
            },
            Collision::Top | Collision::Bottom => {
                self.0.y = -self.0.y;
            },
            Collision::Inside => {},
        }
    }
}

/// The boxes that a list of sizes and places stands for.
pub open spec fn blocks(others: Seq<(Collider, Transform)>) -> Seq<Block> {
    others.map_values(|other: (Collider, Transform)| Block { position: other.1@, size: other.0@ })
}

/// The velocity of a ball that stands at `ball` once it has been tested
/// against each of `others` in turn, coming off every one that it touches.
pub open spec fn rebounds(velocity: Point, ball: Block, others: Seq<Block>) -> Point
    decreases others.len(),
{
    if others.len() == 0 {
        velocity
    } else {
        let before = rebounds(velocity, ball, others.drop_last());
        let other = others.last();
        match collision(ball.position, ball.size, other.position, other.size) {
            Some(side) => rebound(before, side),
            None => before,
        }
    }
}

/// How many of `others` a ball that stands at `ball` touches.
pub open spec fn hits(ball: Block, others: Seq<Block>) -> nat
    decreases others.len(),
{
    if others.len() == 0 {
        0
    } else {
        let before = hits(ball, others.drop_last());
        let other = others.last();
        if collision(ball.position, ball.size, other.position, other.size) is Some {
            before + 1
        } else {
            before
        }
    }
}

impl Court {
    /// What the ball can hit, in the order in which it is tested: the two
    /// walls, then the two paddles.
    pub open spec fn others(self) -> Seq<Block> {
        seq![self.top_wall, self.bottom_wall, self.player.block(), self.computer.block()]
    }

    /// The court once the ball has come off everything that it touches.
    /// Nothing moves; only the ball's velocity turns.
    pub open spec fn collided(self) -> Court {
        match self.ball {
            Some(ball) => Court {
                ball: Some(
                    Body { velocity: rebounds(ball.velocity, ball.block(), self.others()), ..ball },
                ),
                ..self
            },
            None => self,
        }
    }

    /// How many walls and paddles the ball touches.
    pub open spec fn collisions(self) -> nat {
        match self.ball {
            Some(ball) => hits(ball.block(), self.others()),
            None => 0,
        }
    }

    /// One event for each wall or paddle that the ball touches.
    pub open spec fn collision_events(self) -> Seq<BallCollided> {
        Seq::new(self.collisions(), |i: int| BallCollided)
    }

    /// Whether the ball's velocity, if there is a ball, can be reversed
    /// within the machine's range.
    pub open spec fn can_collide(self) -> bool {
        match self.ball {
            Some(ball) => ball.velocity.reversed().in_range(),
            None => true,
        }
    }
}

impl World {
    /// What the ball can hit, in the order in which it is tested.
    pub fn others(&self) -> (others: Vec<(Collider, Transform)>)
        ensures
            blocks(others@) == self@.others(),
    {
        let mut others: Vec<(Collider, Transform)> = Vec::new();
        others.push((self.top_wall.collider, self.top_wall.transform));
        others.push((self.bottom_wall.collider, self.bottom_wall.transform));
        others.push((self.player.collider, self.player.transform));
        others.push((self.computer.collider, self.computer.transform));
        assert(blocks(others@) =~= self@.others());
        others
    }

    /// Whether the ball's velocity, if there is a ball, can be reversed
    /// within the machine's range.
    pub fn can_collide(&self) -> (fits: bool)
        ensures
            fits == self@.can_collide(),
    {
        match self.ball {
            Some(ball) => ball.velocity.can_reverse(),
            None => true,
        }
    }

    /// Tests the ball, where it stands, against the walls and the paddles
    /// in turn, and turns its velocity at each one that it touches. Returns
    /// one event for each touch. Without a ball nothing happens.
    pub fn ball_collision(&mut self) -> (events: Vec<BallCollided>)
        requires
            old(self)@.can_collide(),
        ensures
            final(self)@ == old(self)@.collided(),
            events@ == old(self)@.collision_events(),
    {
        let mut events: Vec<BallCollided> = Vec::new();
        let mut ball = match self.ball {
            Some(ball) => ball,
            None => {
                assert(events@ == old(self)@.collision_events());
                return events;
            },
        };
        let others = self.others();
        let ghost start = ball@;
        let ghost all = blocks(others@);
        let mut i: usize = 0;
        while i < others.len()
            invariant
                i <= others.len(),
                all == blocks(others@),
                start.velocity.reversed().in_range(),
                start.velocity.in_range(),
                ball@.position == start.position,
                ball@.size == start.size,
                ball@.velocity == rebounds(start.velocity, start.block(), all.take(i as int)),
                ball@.velocity.x == start.velocity.x || ball@.velocity.x == -start.velocity.x,
                ball@.velocity.y == start.velocity.y || ball@.velocity.y == -start.velocity.y,
                events.len() == hits(start.block(), all.take(i as int)),
            decreases others.len() - i,
        {
            assert(all.take(i + 1).drop_last() == all.take(i as int));
            assert(all.take(i + 1).last() == (Block {
                position: others[i as int].1@,
                size: others[i as int].0@,
            }));
            let (other_collider, other_transform) = others[i];
            let touch = collide(
                ball.transform.translation,
                ball.collider.0,
                other_transform.translation,
                other_collider.0,
            );
            if let Some(side) = touch {
                events.push(BallCollided);
                ball.velocity.rebound(side);
            }
            i = i + 1;
        }
        assert(all.take(i as int) == all);
        assert(events@ == old(self)@.collision_events());
        self.ball = Some(ball);
        events
    }
}

/// Whether a side turns the horizontal part of a velocity (`horizontal`) or
/// its vertical part (`!horizontal`).
pub open spec fn turns(side: Collision, horizontal: bool) -> bool {
    match side {
        Collision::Left | Collision::Right => horizontal,
        Collision::Top | Collision::Bottom => !horizontal,
        Collision::Inside => false,
    }
}

/// How many of `others` a ball that stands at `ball` touches on a side that
/// turns the horizontal part of its velocity, or the vertical part.
pub open spec fn turn_count(ball: Block, others: Seq<Block>, horizontal: bool) -> nat
    decreases others.len(),
{
    if others.len() == 0 {
        0
    } else {
        let before = turn_count(ball, others.drop_last(), horizontal);
        let other = others.last();
        match collision(ball.position, ball.size, other.position, other.size) {
            Some(side) => if turns(side, horizontal) {
                before + 1
            } else {
                before
            },
            None => before,
        }
    }
}

/// A part of a velocity after it has been reversed `times` times.
pub open spec fn reversed_times(part: int, times: nat) -> int {
    if times % 2 == 0 {
        part
    } else {
        -part
    }
}

/// Collisions compound: each part of the ball's velocity is reversed once
/// for every touch that turns it, so two such touches cancel, and a touch
/// on a corner, which is one of each kind, reverses both parts.
pub proof fn rebounds_compound(velocity: Point, ball: Block, others: Seq<Block>)
    ensures
        rebounds(velocity, ball, others) == (Point {
            x: reversed_times(velocity.x, turn_count(ball, others, true)),
            y: reversed_times(velocity.y, turn_count(ball, others, false)),
        }),
    decreases others.len(),
{
    if others.len() > 0 {
        rebounds_compound(velocity, ball, others.drop_last());
    }
}

/// However many of `others` the ball touches, it keeps its speed along
/// each axis: a collision only ever reverses a part of the velocity.
pub proof fn rebounds_keep_axis_speeds(velocity: Point, ball: Block, others: Seq<Block>)
    ensures
        ({
            let turned = rebounds(velocity, ball, others);
            &&& turned.x == velocity.x || turned.x == -velocity.x
            &&& turned.y == velocity.y || turned.y == -velocity.y
        }),
    decreases others.len(),
{
    if others.len() > 0 {
        rebounds_keep_axis_speeds(velocity, ball, others.drop_last());
    }
}

/// A left or right hit turns (vx, vy) into (-vx, vy), and a top or bottom
/// hit turns it into (vx, -vy).
pub proof fn rebound_reverses_one_axis(velocity: Point, side: Collision)
    ensures
        side == Collision::Left || side == Collision::Right ==> rebound(velocity, side) == (Point {
            x: -velocity.x,
            y: velocity.y,
        }),
        side == Collision::Top || side == Collision::Bottom ==> rebound(velocity, side) == (Point {
            x: velocity.x,
            y: -velocity.y,
        }),
        side == Collision::Inside ==> rebound(velocity, side) == velocity,
{
}

} // verus!
