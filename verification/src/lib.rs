//! Simulation core of a small Asteroids-style game: a player ship, bullets
//! and splitting asteroids move over a wrapped play field, advanced one tick
//! per rendered frame.
//!
//! All quantities are integers in a micro-unit fixed-point scale (millionths
//! of a world unit, see [`fixed`]), so every rule of the simulation — physics
//! integration, screen wrap, collision, spawning and splitting — is stated
//! and proved exactly. Rendering and host plumbing live outside this crate;
//! the world hands the host plain values (score notifications, transforms)
//! and takes plain values back (input state, elapsed milliseconds).

pub mod fixed;
pub mod input;
pub mod object;
pub mod random_source;
pub mod render;
pub mod ship;
pub mod trig;
pub mod world;

use vstd::prelude::*;

verus! {

} // verus!
