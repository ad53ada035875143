//! Configuration constants of the simulation.
//!
//! Distances are in milli-units (one world unit = 1000 milli-units) and
//! durations in microseconds, so one constant here carries both the chosen
//! value and its fixed-point encoding.

use vstd::prelude::*;

verus! {

/// Fixed-point scale: milli-units per world unit.
pub const MILLI: i64 = 1000;

/// Player displacement per tick: 2.0 units.
pub const PLAYER_SPEED: i64 = 2000;

/// Bullet displacement per tick: 10.0 units.
pub const BULLET_SPEED: i64 = 10000;

/// Enemy displacement per tick while chasing the player: 1.0 unit.
pub const ENEMY_SPEED: i64 = 1000;

/// Radius at which the gun orbits the player: 50.0 units.
pub const GUN_OFFSET_RADIUS: i64 = 50000;

/// Minimum time between two bullets while the fire button is held: 0.05 s.
pub const BULLET_SPAWN_INTERVAL: u64 = 50_000;

/// Period of the adversary spawn timer: 1 s.
pub const ENEMY_SPAWN_RATE: u64 = 1_000_000;

/// Population cap: largest number of enemies alive at once.
pub const MAX_ENEMY_AMOUNT: usize = 300;

/// Largest number of enemies created by a single spawn tick.
pub const ENEMY_SPAWN_BATCH_LIMIT: usize = 10;

/// Half-width of the world rectangle in which enemies and decorations are
/// scattered: 3000.0 units.
pub const WORLD_W: i64 = 3_000_000;

/// Half-height of the world rectangle: 3000.0 units.
pub const WORLD_H: i64 = 3_000_000;

/// Number of decorations scattered once at world initialization.
pub const NUM_WORLD_DECORATIONS: usize = 1000;

/// Denominator of the camera's per-tick smoothing factor: each tick the
/// camera covers one tenth (a factor of 0.1) of its distance to the player.
pub const CAMERA_SMOOTHING_DENOM: i64 = 10;

/// Every coordinate of the simulation is kept within this bound
/// (1,000,000 units from the origin); movement saturates here so that no
/// arithmetic in the core can overflow.
pub const POS_LIMIT: i64 = 1_000_000_000;

/// Sprite-sheet cell drawn for the player.
pub const PLAYER_SPRITE_INDEX: usize = 0;

/// Sprite-sheet cell drawn for the gun.
pub const GUN_SPRITE_INDEX: usize = 9;

/// Sprite-sheet cell drawn for a bullet.
pub const BULLET_SPRITE_INDEX: usize = 8;

/// Sprite-sheet cell drawn for an enemy.
pub const ENEMY_SPRITE_INDEX: usize = 0;

/// Smallest sprite-sheet cell a decoration may draw.
pub const DECORATION_SPRITE_MIN: usize = 12;

/// Largest sprite-sheet cell a decoration may draw.
pub const DECORATION_SPRITE_MAX: usize = 13;

} // verus!
