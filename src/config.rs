//! Fixed configuration of the simulation.
//!
//! Velocities are measured in tenths of a cell per physics tick, and elapsed
//! time in microseconds, so that the whole simulation runs on integers.
use vstd::prelude::*;

verus! {

/// Width of the visible screen, in cells.
pub const SCREEN_WIDTH: i32 = 80;

/// Height of the visible screen, in cells.
pub const SCREEN_HEIGHT: i32 = 50;

/// Time that has to accumulate before one physics tick runs (75 ms).
pub const FRAME_DURATION_US: u64 = 75000;

/// Velocity is counted in this many units per cell.
pub const VELOCITY_SCALE: i32 = 10;

/// Velocity gained on each physics tick (0.2 cells per tick).
pub const GRAVITY: i32 = 2;

/// Terminal velocity: gravity never pushes the velocity above it (2.0).
pub const TERMINAL_VELOCITY: i32 = 20;

/// Velocity set by a flap (-2.0).
pub const FLAP_VELOCITY: i32 = -20;

/// Starting position of the player in the world.
pub const START_X: i32 = 5;

/// Starting height of the player.
pub const START_Y: i32 = 25;

/// Gap size of an obstacle created at score zero.
pub const BASE_GAP_SIZE: i32 = 20;

/// Smallest gap size an obstacle ever gets.
pub const MIN_GAP_SIZE: i32 = 2;

/// Lowest value (inclusive) of an obstacle's gap centre.
pub const GAP_Y_MIN: i32 = 10;

/// Highest value (exclusive) of an obstacle's gap centre.
pub const GAP_Y_MAX: i32 = 40;

/// Largest world position from which the player can still take a tick and
/// have an obstacle placed one screen ahead of it without overflow.
pub const MAX_WORLD_X: i32 = 2147483647 - SCREEN_WIDTH - 1;

} // verus!
