//! Simulation core of a top-down arcade shooter: entity state, per-frame
//! movement, weapons, enemy spawning, collision search and combat resolution,
//! and the playing / restarting lifecycle.
//!
//! All quantities are integers: positions and lengths are in thousandths of a
//! world unit, durations in microseconds, and random draws are fractions of
//! `UNIT` (a draw `r` stands for `r / UNIT` in `[0, 1)`).

pub mod timer;
pub mod geometry;
pub mod rolls;
pub mod world;
pub mod combat;
pub mod motion;
pub mod weapons;
pub mod frame;
