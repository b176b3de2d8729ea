//! Core logic of a small tile-based role-playing game: an application state
//! stack with enter/exit/pause/resume transitions, turn-based combat damage
//! resolution, a randomized encounter countdown, grid movement with
//! axis-aligned collision, a fadeout transition timer, and a text tilemap
//! parser.
//!
//! Geometry and time are held in integer fixed point: positions and sizes in
//! hundredths of a logical pixel ("units"), durations in milliseconds. A tile
//! is 8 logical pixels wide, so `TILE_SIZE` is 800 units.

use vstd::prelude::*;

pub mod camera;
pub mod combat;
pub mod fadeout;
pub mod game;
pub mod geometry;
pub mod movement;
pub mod player;
mod rng;
pub mod state;
pub mod stats;
pub mod tilemap;
pub mod timer;

verus! {

/// Fixed-point position units per logical pixel.
pub const UNITS_PER_PIXEL: i64 = 100;

/// Side length of one map tile, in units (8 logical pixels).
pub const TILE_SIZE: i64 = 800;

/// Logical window width, in units (200 logical pixels).
pub const WIN_WIDTH: i64 = 20000;

/// Logical window height, in units (150 logical pixels).
pub const WIN_HEIGHT: i64 = 15000;

/// Integer display scale factor applied to the logical window.
pub const WIN_SCALE: i64 = 4;

} // verus!
