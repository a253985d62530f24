//! Tuning constants of the simulation.
//!
//! Lengths are in sub-units (60 per arena unit). The simulation runs at
//! 60 ticks per second with a base speed of 100 arena units per second, so a
//! speed factor `s` moves `s * 100 / 60` units, that is `s * 100` sub-units,
//! per tick: a stored speed is that number of sub-units.
use vstd::prelude::*;

verus! {

/// Sub-units per arena unit.
pub const SUBUNITS: i64 = 60;

/// Ticks per second of the fixed-timestep loop.
pub const TICKS_PER_SECOND: i64 = 60;

/// Base speed, in arena units per second, of a speed factor of one.
pub const BASE_SPEED: i64 = 100;

/// Half extent of the player ship on each axis (15 units).
pub const PLAYER_HALF: i64 = 900;

/// Half extent of an enemy ship on each axis (15 units).
pub const ENEMY_HALF: i64 = 900;

/// Half extent of a player bullet on each axis (1.5 units).
pub const PLAYER_BULLET_HALF: i64 = 90;

/// Half extent of an enemy bullet on each axis (1.5 units).
pub const ENEMY_BULLET_HALF: i64 = 90;

/// Distance kept between a clamped ship and the arena wall (5 units).
pub const INSET: i64 = 300;

/// How far past the arena a bullet may go before it is removed (10 units).
pub const MARGIN: i64 = 600;

/// Distance from a ship's centre to the point where its bullets appear
/// along the vertical axis (20 units).
pub const MUZZLE_Y: i64 = 1200;

/// Horizontal offset of each of the player's two guns (10 units).
pub const MUZZLE_X: i64 = 600;

/// Speed of the player on each axis while a direction is held (factor 5).
pub const PLAYER_SPEED: i64 = 500;

/// Upward speed of a player bullet (factor 10).
pub const PLAYER_BULLET_SPEED: i64 = 1000;

/// Downward speed of an enemy bullet (factor 5).
pub const ENEMY_BULLET_SPEED: i64 = 500;

/// Enemy speeds are drawn from `[-ENEMY_SPEED_RANGE, ENEMY_SPEED_RANGE)` (factor 7).
pub const ENEMY_SPEED_RANGE: i64 = 700;

/// The largest speed, on either axis, that an entity may have.
pub const SPEED_MAX: i64 = 10000;

/// The largest arena width or height, in sub-units.
pub const ARENA_MAX: u32 = 1_000_000_000;

/// The smallest arena width, in sub-units: room for a ship and its inset on each side.
pub const ARENA_MIN_W: u32 = 2400;

/// The smallest arena height, in sub-units: room for the player below the quarter line.
pub const ARENA_MIN_H: u32 = 4800;

/// Most enemies alive at once.
pub const ENEMY_MAX: u32 = 3;

/// Milliseconds a dead player waits before respawning.
pub const PLAYER_RESPAWN_MS: u64 = 2000;

/// Odds, per tick, that the enemies fire: one in this many.
pub const ENEMY_FIRE_ODDS: u32 = 60;

/// Period, in milliseconds, of the enemy spawn and player respawn timers.
pub const SPAWN_PERIOD_MS: u64 = 500;

/// A stored speed `v`, that is a speed factor of `v / 100`, covers
/// `v / 100 * BASE_SPEED` units in a second of `TICKS_PER_SECOND` ticks, which
/// is `v` sub-units per tick.
pub proof fn lemma_speed_unit(v: int)
    ensures
        v * BASE_SPEED * SUBUNITS == v * 100 * TICKS_PER_SECOND,
{
    assert(v * BASE_SPEED * SUBUNITS == v * 100 * TICKS_PER_SECOND) by (nonlinear_arith);
}

} // verus!
