//! The constants of the game. Lengths are in units, ten to the pixel;
//! speeds are in units per tick; durations are in nanoseconds.

use vstd::prelude::*;

verus! {

/// Units per pixel.
pub const UNITS_PER_PIXEL: i64 = 10;

/// What a tick adds to the body's vertical velocity.
pub const GRAVITY: i64 = -2;

/// The vertical velocity that a flap gives the body.
pub const IMPULSE: i64 = 60;

/// What a tick adds to an obstacle's horizontal position.
pub const OBSTACLE_SPEED: i64 = -40;

/// The width of every obstacle.
pub const OBSTACLE_WIDTH: i64 = 1280;

/// The height of one tile of an obstacle's picture.
pub const TILE_SIZE: i64 = 1280;

/// The border that a hole keeps from the top and bottom of the visible area.
pub const MARGIN: i64 = 200;

/// Where the torso's hit circle sits, relative to the body's position.
pub const TORSO_OFFSET_X: i64 = 270;

pub const TORSO_OFFSET_Y: i64 = -270;

/// Where the head's hit circle sits, relative to the body's position.
pub const HEAD_OFFSET_X: i64 = 470;

pub const HEAD_OFFSET_Y: i64 = 250;

/// The body's diameter, counted in torso radii.
pub const DIAMETER_IN_RADII: i64 = 5;

/// The simulated time between two obstacle pairs.
pub const SPAWN_INTERVAL: u64 = 1_500_000_000;

/// Nanoseconds per second.
pub const NANOS_PER_SECOND: u64 = 1_000_000_000;

/// The seed that every game starts its random stream from.
pub const SEED: u64 = 42;

/// The largest width and height that a visible area may have.
pub const VIEW_LIMIT: i64 = 1_000_000_000;

/// The largest distance from the origin, along either axis, at which the
/// engine keeps anything.
pub const COORD_LIMIT: i64 = 2_000_000_000;

/// The largest speed, along either axis, that the engine keeps.
pub const SPEED_LIMIT: i64 = 100_000;

/// The largest radius that a hit circle of the body may have.
pub const RADIUS_LIMIT: i64 = 1_000_000;

/// The smallest hole, in tenths of the body's diameter.
pub const GAP_FLOOR_TENTHS: i64 = 11;

/// What the narrowest hole of the first pair has above the floor, in tenths
/// of the body's diameter.
pub const MIN_GAP_SCALE_TENTHS: i64 = 19;

/// What the widest hole of the first pair has above the floor, in tenths of
/// the body's diameter.
pub const MAX_GAP_SCALE_TENTHS: i64 = 39;

/// The number of pairs after which the part of a hole above the floor has
/// halved.
pub const GAP_PACE: i64 = 10;

/// The number of pairs after which the largest drift is half the visible
/// height.
pub const DRIFT_PACE: i64 = 10;

} // verus!
