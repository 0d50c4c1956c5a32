//! The court with everything on it, and the rules that change it.

use vstd::prelude::*;
use crate::entities::{Ball, Block, Body, Computer, Player, Wall};
use crate::geometry::{Collider, Point, Transform, Vec2, Velocity};
use crate::score::{Scoreboard, Scores};
use crate::units::{
    COURT_WIDTH, PADDLE_HEIGHT, PADDLE_WIDTH, PLAYER_START_POSITION, WALL_HEIGHT, WALL_THICKNESS,
};

verus! {

/// The state of a game, without machine limits.
pub struct Court {
    pub player: Body,
    pub computer: Body,
    pub ball: Option<Body>,
    pub top_wall: Block,
    pub bottom_wall: Block,
    pub scores: Scores,
}

/// The state of a game. At most one ball is on the court.
#[derive(Clone, Copy, Debug, PartialEq, Eq)]
pub struct World {
    pub player: Player,
    pub computer: Computer,
    pub ball: Option<Ball>,
    pub top_wall: Wall,
    pub bottom_wall: Wall,
    pub scoreboard: Scoreboard,
}

impl View for World {
    type V = Court;

    open spec fn view(&self) -> Court {
        Court {
            player: self.player@,
            computer: self.computer@,
            ball: match self.ball {
                Some(ball) => Some(ball@),
                None => None,
            },
            top_wall: self.top_wall@,
            bottom_wall: self.bottom_wall@,
            scores: self.scoreboard@,
        }
    }
}

/// A resting paddle at its starting place, `x` from the centre line.
pub open spec fn paddle_at_start(x: int) -> Body {
    Body {
        position: Point { x, y: 0 },
        velocity: Point { x: 0, y: 0 },
        size: Point { x: PADDLE_WIDTH as int, y: PADDLE_HEIGHT as int },
    }
}

/// A wall as wide as the court whose centre is `y` above the centre of the
/// court.
pub open spec fn wall_at(y: int) -> Block {
    Block {
        position: Point { x: 0, y },
        size: Point { x: COURT_WIDTH as int, y: WALL_THICKNESS as int },
    }
}

impl Court {
    /// The court before the first ball: both paddles at rest at their
    /// starting places, the walls above and below, no points scored.
    pub open spec fn empty() -> Court {
        Court {
            player: paddle_at_start(PLAYER_START_POSITION as int),
            computer: paddle_at_start(-PLAYER_START_POSITION),
            ball: None,
            top_wall: wall_at(WALL_HEIGHT + WALL_THICKNESS),
            bottom_wall: wall_at(-WALL_HEIGHT - WALL_THICKNESS),
            scores: Scores { player: 0, computer: 0 },
        }
    }
}

impl World {
    /// Lays out the court: the walls, the two paddles and an empty
    /// scoreboard. The ball is put on it by `spawn_ball`.
    pub fn setup() -> (world: World)
        ensures
            world@ == Court::empty(),
    {
        let top_wall = Wall {
            transform: Transform::from_translation(Vec2::new(0, WALL_HEIGHT + WALL_THICKNESS)),
            collider: Collider::cuboid(COURT_WIDTH, WALL_THICKNESS),
        };
        let bottom_wall = Wall {
            transform: Transform::from_translation(Vec2::new(0, -WALL_HEIGHT - WALL_THICKNESS)),
            collider: Collider::cuboid(COURT_WIDTH, WALL_THICKNESS),
        };
        let player = Player {
            transform: Transform::from_translation(Vec2::new(PLAYER_START_POSITION, 0)),
            collider: Collider::cuboid(PADDLE_WIDTH, PADDLE_HEIGHT),
            velocity: Velocity::default(),
        };
        let computer = Computer {
            transform: Transform::from_translation(Vec2::new(-PLAYER_START_POSITION, 0)),
            collider: Collider::cuboid(PADDLE_WIDTH, PADDLE_HEIGHT),
            velocity: Velocity::default(),
        };
        World {
            player,
            computer,
            ball: None,
            top_wall,
            bottom_wall,
            scoreboard: Scoreboard::default(),
        }
    }
}

} // verus!
