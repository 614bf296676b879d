//! Simulation core of a three-lane dodging game.
//!
//! A player shifts between three fixed horizontal lanes while obstacles
//! spawn periodically at the top of the field and scroll downward at a
//! constant speed. This crate holds the per-frame simulation logic: the
//! lane model, the player's constant-velocity tween toward its lane's
//! target position, the periodic spawn timer, and uniform obstacle motion.
//!
//! Positions are fixed-point screen coordinates in centiunits (one
//! hundredth of a screen unit) and time is in whole milliseconds, so that
//! every per-frame update is exact integer arithmetic.

use vstd::prelude::*;

pub mod game;
pub mod lane;
pub mod obstacle;
pub mod player;
pub mod timer;

verus! {

/// Speed of the player's tween, in centiunits per millisecond
/// (1500 screen units per second).
pub const PLAYER_SPEED_CU_PER_MS: i64 = 150;

/// Downward speed of every obstacle, in centiunits per millisecond
/// (250 screen units per second).
pub const OBSTACLE_SPEED_CU_PER_MS: i64 = 25;

/// Dead zone around the tween target, in centiunits (10 screen units):
/// within it the rendered position snaps exactly to the target.
pub const SNAP_EPSILON_CU: i64 = 1000;

/// Height at which a new obstacle appears, in centiunits (700 screen units).
pub const SPAWN_Y_CU: i64 = 70000;

/// Period of the spawn timer, in milliseconds (one second).
pub const SPAWN_PERIOD_MS: u64 = 1000;

/// Largest elapsed time a single frame may report, in milliseconds.
pub const MAX_DT_MS: u64 = 10000;

/// Largest admitted lane width, in centiunits: keeps all position
/// arithmetic comfortably inside `i64`.
pub const MAX_LANE_SIZE_CU: i64 = 1000000000;

/// Largest admitted spawn-timer period, in milliseconds: keeps the
/// timer's accumulation inside `u64`.
pub const MAX_PERIOD_MS: u64 = 1000000000;

} // verus!
