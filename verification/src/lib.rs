//! A verified core for a small real-time simulation: countdown timers that
//! drive entity spawning and removal against a shared per-tick clock, and an
//! orbit camera controller fed by pointer and scroll input.
//!
//! Time, angles and positions are held in fixed-point integer units
//! (milliunits and millidegrees), so every update rule is exact and provable.

pub mod camera;
pub mod emitter;
pub mod geom;
pub mod lifetime;
pub mod timer;
pub mod trig;
pub mod visual;
pub mod world;
