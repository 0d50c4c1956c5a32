//! What stands on the court: the ball, the two paddles and the walls.

use vstd::prelude::*;
use crate::geometry::{Collider, Point, Transform, Velocity};

verus! {

/// Something that moves: where it is, how fast it goes and how large it is.
pub struct Body {
    pub position: Point,
    pub velocity: Point,
    pub size: Point,
}

/// Something the ball can hit: where it is and how large it is.
pub struct Block {
    pub position: Point,
    pub size: Point,
}

impl Body {
    /// The body as something to hit.
    pub open spec fn block(self) -> Block {
        Block { position: self.position, size: self.size }
    }
}

/// The ball.
#[derive(Clone, Copy, Debug, PartialEq, Eq, Structural)]
pub struct Ball {
    pub transform: Transform,
    pub velocity: Velocity,
    pub collider: Collider,
}

impl View for Ball {
    type V = Body;

    open spec fn view(&self) -> Body {
        Body { position: self.transform@, velocity: self.velocity@, size: self.collider@ }
    }
}

/// The paddle that the keys move. It stands on the right.
#[derive(Clone, Copy, Debug, PartialEq, Eq, Structural)]
pub struct Player {
    pub transform: Transform,
    pub velocity: Velocity,
    pub collider: Collider,
}

impl View for Player {
    type V = Body;

    open spec fn view(&self) -> Body {
        Body { position: self.transform@, velocity: self.velocity@, size: self.collider@ }
    }
}

/// The paddle that moves by itself. It stands on the left.
#[derive(Clone, Copy, Debug, PartialEq, Eq, Structural)]
pub struct Computer {
    pub transform: Transform,
    pub velocity: Velocity,
    pub collider: Collider,
}

impl View for Computer {
    type V = Body;

    open spec fn view(&self) -> Body {
        Body { position: self.transform@, velocity: self.velocity@, size: self.collider@ }
    }
}

/// A wall: it never moves.
#[derive(Clone, Copy, Debug, PartialEq, Eq, Structural)]
pub struct Wall {
    pub transform: Transform,
    pub collider: Collider,
}

impl View for Wall {
    type V = Block;

    open spec fn view(&self) -> Block {
        Block { position: self.transform@, size: self.collider@ }
    }
}

} // verus!
