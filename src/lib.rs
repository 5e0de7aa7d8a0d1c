//! Verified core of a progressive path tracer.
//!
//! The floating-point geometry lives with the caller; this crate holds the
//! decisions that drive it: how a path ends, which hit is nearest, how
//! samples accumulate across frames, and how a pixel is packed for display.

pub mod accum;
pub mod integrator;
pub mod scene;
pub mod tone;
