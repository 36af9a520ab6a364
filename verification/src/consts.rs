//! Tuning constants and coordinate limits of the simulation core.
//!
//! Every length is in milli-units (one thousandth of a world unit),
//! every speed in milli-units per second, every duration in
//! milliseconds. `SCALE` converts between the three: a velocity `v`
//! advances a position by `v * dt / SCALE` milli-units in `dt`
//! milliseconds.

use vstd::prelude::*;

verus! {

/// Milli-units per world unit, and milliseconds per second.
pub const SCALE: i64 = 1000;

/// Vertical impulse a flap gives the player, milli-units per second.
pub const FLAP_VELOCITY_Y: i64 = 300_000;

/// Downward acceleration on the player, milli-units per second squared.
pub const GRAVITY_Y: i64 = 1_000_000;

/// Leftward scroll speed of every pipe, milli-units per second.
pub const PIPE_VELOCITY_X: i64 = 250_000;

/// Terminal fall speed: vertical velocity never drops below its negation.
pub const MAX_VELOCITY_Y: i64 = 500_000;

/// Horizontal extent of a pipe sprite.
pub const PIPE_WIDTH: i64 = 70_000;

/// Vertical extent of a pipe sprite.
pub const PIPE_HEIGHT: i64 = 500_000;

/// Height of the ground strip at the bottom of the window.
pub const GROUND_HEIGHT: i64 = 112_000;

/// How far past the window edge an entity may drift before despawning.
pub const DESPAWN_MARGIN: i64 = 300_000;

/// Interval of the repeating pipe spawn timer, milliseconds.
pub const SPAWN_INTERVAL_MS: i64 = 2_000;

/// World coordinate bound: positions saturate at this magnitude, far
/// beyond any window, so integration never overflows.
pub const POS_LIMIT: i64 = 1_000_000_000_000;

/// Largest velocity magnitude a well-formed entity can carry.
pub const VEL_LIMIT: i64 = 1_000_000_000;

/// Largest gravity magnitude a well-formed entity can carry.
pub const ACC_LIMIT: i64 = 1_000_000_000;

/// Largest sprite extent a well-formed entity can carry.
pub const SIZE_LIMIT: i64 = 1_000_000_000;

/// Largest wrap period of a parallax layer.
pub const LOOP_LIMIT: i64 = 1_000_000_000;

/// Largest frame delta the passes accept, milliseconds.
pub const DT_LIMIT: i64 = 60_000;

/// Largest window dimension the passes accept.
pub const WINDOW_LIMIT: i64 = 1_000_000_000;

/// Largest timer interval a well-formed spawn timer can carry.
pub const TIMER_LIMIT: i64 = 1_000_000_000;

} // verus!
