//! A verified 2D platformer character controller.
//!
//! The controller turns per-tick input intent into physically consistent
//! locomotion: walking with acceleration toward a capped target speed,
//! variable-height jumping, and slope-aware ground contact classification.
//! It is written against an external fixed-timestep rigid-body solver: each
//! tick the caller reads the body's velocity and resolved contacts, runs the
//! controller, and writes the returned velocity command back to the body
//! exactly once.
//!
//! All quantities are fixed-point integers so that every tick is exact and
//! reproducible:
//! - distances and speeds are in world units; velocity state is carried in
//!   micro-units per second (`1_000_000` = one unit per second);
//! - tick durations are in microseconds;
//! - angles are in milliradians;
//! - the input axis is in permille (`1000` = full deflection).
//!
//! The velocity blend is acceleration-clamped: each tick the horizontal
//! velocity moves toward `axis * max_speed` by at most `acceleration * dt`.
//! Because that step is linear in the tick duration, the trajectory depends
//! only on total elapsed time, never on the tick rate.

pub mod config;
pub mod intent;
pub mod ground;
pub mod locomotion;
pub mod jump;
pub mod controller;
