//! Core simulation of a two-player vertical-arena duel: players climb a
//! procedurally laid-out tower of platforms ahead of a rising hazard line,
//! firing projectiles at each other until one side reaches the winning score.
//!
//! All world quantities are exact fixed-point integers:
//! - positions are measured in micro-units (one world unit = 1_000_000),
//! - velocities in milli-units per second (one unit/s = 1_000),
//! - elapsed time in whole milliseconds.
//!
//! With these scales `position + velocity * dt` is exact integer arithmetic:
//! (milli-units/s) * ms = micro-units.

#![verifier::loop_isolation(false)]

pub mod game_data;
pub mod game_scene;
pub mod geom;
pub mod menu_scene;
pub mod win_scene;
pub mod player;
pub mod projectile;
pub mod scenes;
pub mod utils;

use vstd::prelude::*;

verus! {

/// Micro-units per world unit.
pub const UNIT: i64 = 1_000_000;

/// Upper bound on the elapsed time of a single frame, in milliseconds.
/// Callers clamp longer stalls to this bound before stepping the simulation.
pub const MAX_FRAME_MS: i64 = 100;

} // verus!
