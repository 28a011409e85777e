//! Tuning constants of the game, in the units of `crate::units`.

use vstd::prelude::*;

use crate::units::{PIXEL, PIXEL_PER_SECOND};

verus! {

/// Width of the window.
pub const WINDOW_WIDTH: i64 = 1280 * PIXEL;

/// Height of the window.
pub const WINDOW_HEIGHT: i64 = 720 * PIXEL;

/// Frame rate, per second, against which camera smoothing is calibrated.
pub const TARGET_FRAMERATE: u32 = 60;

/// Tightest camera smoothing (fastest follow), in thousandths.
pub const MIN_SMOOTHING: u32 = 10;

/// Loosest camera smoothing (slowest follow), in thousandths.
pub const MAX_SMOOTHING: u32 = 1_000;

/// Depth of the band below a platform's top edge within which a falling
/// actor lands on it.
pub const LANDING_THRESHOLD: i64 = 10 * PIXEL;

/// Points awarded for each hazard that the actor touches.
pub const OBSTACLE_SURVIVE_POINTS: u32 = 10;

/// Horizontal coordinate at which hazards appear.
pub const SPAWN_X: i64 = 700 * PIXEL;

/// Range of the vertical coordinate at which hazards appear.
pub const SPAWN_Y_MIN: i64 = -200 * PIXEL;

pub const SPAWN_Y_MAX: i64 = 150 * PIXEL;

/// Range of hazard widths.
pub const WIDTH_MIN: i64 = 30 * PIXEL;

pub const WIDTH_MAX: i64 = 60 * PIXEL;

/// Range of hazard heights.
pub const HEIGHT_MIN: i64 = 30 * PIXEL;

pub const HEIGHT_MAX: i64 = 60 * PIXEL;

/// Range of hazard speeds.
pub const SPEED_MIN: i64 = 100 * PIXEL_PER_SECOND;

pub const SPEED_MAX: i64 = 250 * PIXEL_PER_SECOND;

/// Hazards whose horizontal coordinate falls below this are removed.
pub const DESPAWN_X: i64 = -800 * PIXEL;

} // verus!
