//! A fixed-point projectile/explosion simulation core.
//!
//! The library advances a set of projectiles toward fixed targets, detects
//! arrival, runs a one-tick explosion window, and tracks an escalating
//! difficulty curve. All quantities are fixed-point integers: lengths in
//! milli-units, times in microseconds. Rendering, input and randomness live
//! outside; the host hands in elapsed time, a clock reading and random
//! coordinates, and reads entity snapshots back.

use vstd::prelude::*;

pub mod difficulty;
pub mod geometry;
pub mod projectile;
pub mod registry;
pub mod scheduler;
pub mod session;

verus! {

/// Time scale: microseconds per simulated second.
pub const MICROS_PER_SEC: i64 = 1_000_000;

} // verus!

