//! The fixed-point units in which the simulation measures space and time.
//!
//! Lengths are micro-pixels and time is milliseconds, so that a velocity is
//! micro-pixels per millisecond and an acceleration micro-pixels per square
//! millisecond. In these units `position += velocity * dt` and
//! `velocity -= gravity * dt` are exact integer operations.

use vstd::prelude::*;

verus! {

/// One pixel, in micro-pixels.
pub const PIXEL: i64 = 1_000_000;

/// One second, in milliseconds.
pub const SECOND: u32 = 1_000;

/// A speed of one pixel per second, in micro-pixels per millisecond.
pub const PIXEL_PER_SECOND: i64 = 1_000;

/// An acceleration of one pixel per second squared, in micro-pixels per
/// square millisecond.
pub const PIXEL_PER_SECOND_SQUARED: i64 = 1;

/// The value that stands for 1.0 in a ratio given in thousandths.
pub const PER_MILLE: u32 = 1_000;

} // verus!
