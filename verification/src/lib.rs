//! Animation core for a decorative window-border overlay.
//!
//! The library models the border's animation state machine over fixed-point
//! integers: angles and opacities are scaled by [`SCALE`] (one unit of the
//! original quantity is `SCALE` fixed-point units), and elapsed time is in
//! milliseconds. The render layer converts these plain values to and from its
//! own floating-point representation at the boundary.

use vstd::prelude::*;

pub mod animations;
pub mod easing;
pub mod event_hook;

verus! {

/// Milliseconds per second: elapsed time is handed to the ticks in
/// milliseconds, speeds are in fixed-point units per second.
pub const MILLIS_PER_SEC: i64 = 1000;

/// Fixed-point scale: `SCALE` units represent 1.0 (one degree, or a full
/// opacity / progress unit).
pub const SCALE: i64 = 1000;

/// One full rotation, in fixed-point degrees.
pub const FULL_TURN: i64 = 360 * SCALE;

/// Largest angular advance a single tick may apply, in fixed-point degrees.
pub const MAX_TICK_DELTA: i64 = 359 * SCALE;

/// Speed assigned to a configured animation whose speed entry is null or
/// malformed, in fixed-point units per second.
pub const DEFAULT_SPEED: i64 = 100 * SCALE;

/// Recoverable failures of the animation core. None of these aborts a tick:
/// a bad curve freezes one frame, a stale notification is ignored, and a
/// malformed config value falls back to [`DEFAULT_SPEED`].
#[derive(Clone, Copy, Debug, PartialEq, Eq, Structural)]
pub enum AnimationError {
    /// The easing control points cannot form a curve solvable for x.
    InvalidCurve,
    /// A notification referenced a border that is no longer tracked.
    MissingBorder,
    /// A configured speed was not a number.
    MalformedConfigValue,
}

} // verus!

