use vstd::prelude::*;

verus! {

/// Coordinate units per screen pixel. All positions, sizes and velocities in
/// this crate are fixed-point integers measured in these sub-pixel units, so
/// every motion constant of the game is exact.
pub const SCALE: i32 = 20;

/// Play-field width in coordinate units (800 pixels).
pub const WIN_W: i32 = 16000;

/// Play-field height in coordinate units (800 pixels).
pub const WIN_H: i32 = 16000;

/// Downward velocity gained by a falling entity each tick.
pub const GRAVITY: i32 = 20;

/// Largest coordinate magnitude the engine accepts; keeps every sum and
/// doubling of coordinates well inside `i32`.
pub const POS_LIMIT: i32 = 1000000;

/// Largest velocity magnitude the engine accepts; keeps `position + velocity`
/// well inside `i32`.
pub const VEL_LIMIT: i32 = 1000000;

} // verus!
