//! Points, positions, velocities and box sizes.

use vstd::prelude::*;

verus! {

/// A point or displacement of the plane, with unbounded coordinates.
pub struct Point {
    pub x: int,
    pub y: int,
}

impl Point {
    /// Whether both coordinates fit a machine coordinate.
    pub open spec fn in_range(self) -> bool {
        i64::MIN <= self.x <= i64::MAX && i64::MIN <= self.y <= i64::MAX
    }

    /// The point on the other side of the origin.
    pub open spec fn reversed(self) -> Point {
        Point { x: -self.x, y: -self.y }
    }
}

/// A pair of machine coordinates.
#[derive(Clone, Copy, Debug, PartialEq, Eq, Structural)]
pub struct Vec2 {
    pub x: i64,
    pub y: i64,
}

impl View for Vec2 {
    type V = Point;

    open spec fn view(&self) -> Point {
        Point { x: self.x as int, y: self.y as int }
    }
}

impl Vec2 {
    pub fn new(x: i64, y: i64) -> (v: Vec2)
        ensures
            v.x == x,
            v.y == y,
    {
        Vec2 { x, y }
    }

    /// The origin.
    pub fn zero() -> (v: Vec2)
        ensures
            v.x == 0,
            v.y == 0,
    {
        Vec2 { x: 0, y: 0 }
    }
}

/// Where something stands on the court.
#[derive(Clone, Copy, Debug, PartialEq, Eq, Structural)]
pub struct Transform {
    pub translation: Vec2,
}

impl View for Transform {
    type V = Point;

    open spec fn view(&self) -> Point {
        self.translation@
    }
}

impl Transform {
    pub fn from_translation(translation: Vec2) -> (t: Transform)
        ensures
            t.translation == translation,
    {
        Transform { translation }
    }
}

/// How far something moves in a second, in court units along each axis.
#[derive(Clone, Copy, Debug, PartialEq, Eq, Structural)]
pub struct Velocity(pub Vec2);

impl View for Velocity {
    type V = Point;

    open spec fn view(&self) -> Point {
        self.0@
    }
}

impl Default for Velocity {
    /// No movement.
    fn default() -> (v: Velocity)
        ensures
            v.0.x == 0,
            v.0.y == 0,
    {
        Velocity(Vec2 { x: 0, y: 0 })
    }
}

/// The width and height of an axis-aligned box centred on its owner's
/// position. A circle is held as the square around it.
#[derive(Clone, Copy, Debug, PartialEq, Eq, Structural)]
pub struct Collider(pub Vec2);

impl View for Collider {
    type V = Point;

    open spec fn view(&self) -> Point {
        self.0@
    }
}

impl Collider {
    /// A box `x` wide and `y` high.
    pub fn cuboid(x: i64, y: i64) -> (c: Collider)
        ensures
            c.0.x == x,
            c.0.y == y,
    {
        Collider(Vec2 { x, y })
    }

    /// The square around a circle: each side is the diameter.
    pub fn circle(radius: i64) -> (c: Collider)
        requires
            i64::MIN <= 2 * radius <= i64::MAX,
        ensures
            c.0.x == 2 * radius,
            c.0.y == 2 * radius,
    {
        let diameter: i64 = radius * 2;
        Collider(Vec2 { x: diameter, y: diameter })
    }
}

} // verus!
