//! A two-paddle Pong simulation on exact integer arithmetic.
//!
//! Lengths are counted in millionths of a court unit, time in microseconds and
//! speeds in court units per second, so that a displacement is exactly
//! `speed * elapsed`.
//!
//! The state of a game is a [`World`]; its mathematical model, on unbounded
//! integers, is a [`world::Court`]. Each rule is a function on courts, and
//! the method of `World` of the same purpose is proved to compute it
//! wherever the machine can hold the result. [`World::frame`] plays the
//! rules in their order; [`laws`] holds what follows for a whole game.

pub mod chance;
pub mod collision;
pub mod control;
pub mod display;
pub mod entities;
pub mod frame;
pub mod geometry;
pub mod laws;
pub mod movement;
pub mod reset;
pub mod score;
pub mod sequencer;
pub mod units;
pub mod world;

pub use crate::chance::{coin_flip, Heading, Sign};
pub use crate::collision::{collide, Collision};
pub use crate::control::Controls;
pub use crate::display::update_scores;
pub use crate::entities::{Ball, Computer, Player, Wall};
pub use crate::frame::FrameReport;
pub use crate::geometry::{Collider, Transform, Vec2, Velocity};
pub use crate::score::{BallCollided, BallDestroyed, Score, Scoreboard};
pub use crate::world::World;
