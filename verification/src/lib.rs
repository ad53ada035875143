//! Simulation core of a top-down arena shooter.
//!
//! The world is advanced one discrete tick at a time.  All positions are
//! 2-D fixed-point vectors in milli-units (one world unit = 1000 milli-units)
//! and all durations are integer microseconds, so every rule of the
//! simulation — player movement, weapon aiming and rate-limited firing,
//! projectile and adversary advancement, population-capped spawning and
//! camera smoothing — is stated and proved exactly.
//!
//! Rendering, windowing and raw input live outside this crate; they hand the
//! core plain values (key and button booleans, an optional cursor point) and
//! read entity positions back.

use vstd::prelude::*;

pub mod bullet;
pub mod constants;
pub mod entities;
pub mod enemy;
pub mod gun;
pub mod player;
pub mod rng;
pub mod vec2;
pub mod world;

verus! {

} // verus!
