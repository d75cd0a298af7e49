//! A deterministic simulation engine for a side-scrolling obstacle game.
//!
//! A body falls under gravity, rises on a flap, and has to pass through the
//! holes of obstacle pairs that scroll towards it. The engine owns the game
//! phase, the physics, the seeded obstacle generator, the collision test and
//! the score; windows, sprites, menus, input devices and storage stay with
//! the caller, who hands in plain values and reads plain values back.
//!
//! Every length is a whole number of units, ten to the pixel, every speed is
//! in units per tick, and every duration is in nanoseconds.

pub mod tuning;
pub mod geometry;
pub mod viewport;
pub mod difficulty;
pub mod random;
pub mod obstacle;
pub mod body;
pub mod generator;
pub mod collision;
pub mod score;
pub mod phase;
pub mod animation;
pub mod world;
