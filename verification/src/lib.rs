//! A per-frame kinematic engine for a desktop penguin overlay.
//!
//! Three kinds of animated entities walk or descend across the screen: a
//! penguin pacing back and forth along the bottom edge, a balloon drifting
//! down, and a helicopter penguin dropping in. Every entity keeps a
//! fixed-point position (hundredths of a pixel), a handful of counters, and a
//! small enumerated motion state; a fixed-rate tick advances them. The host
//! shell feeds ticks in, reads sprite placement instructions out, and does the
//! actual drawing.

pub mod assets;
pub mod back_forth;
pub mod balloon;
pub mod copter;
pub mod rng;
pub mod scene;
pub mod screen;
pub mod units;
