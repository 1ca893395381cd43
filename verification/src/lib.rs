//! Core of a rectangle-canvas throughput benchmark: a deterministic
//! pseudo-random service, a population of scrolling rectangles that grows and
//! shrinks on demand, resize-reactive bounds recalculation, and the per-frame
//! movement and wrap updates.
//!
//! All scalar quantities (positions, widths, velocities, viewport dimensions,
//! elapsed time) are fixed-point numbers: an `i64` counts 1/65536ths of a
//! pixel (or of a second). This keeps every computation exact.
use vstd::prelude::*;

pub mod body;
pub mod frame;
pub mod laws;
pub mod motion;
pub mod resize;
pub mod sim;
pub mod rng;

verus! {

/// Fixed-point scale: the value 1.0 is represented by `FP` = 1 << 16.
pub const FP: i64 = 65536;

/// 2^23 and 2^24: denominators of the 23- and 24-bit uniform draws.
pub const POW23: i64 = 8388608;
pub const POW24: i64 = 16777216;

/// Largest viewport width or height the core accepts (16384 pixels).
pub const DIM_MAX: i64 = 1073741824;

/// Largest per-frame elapsed time the core accepts (16 seconds).
pub const DT_MAX: i64 = 1048576;

/// Body widths are drawn from [10, 50) pixels.
pub const WIDTH_MIN: i64 = 10 * FP;
pub const WIDTH_MAX: i64 = 50 * FP;

/// Body velocities are drawn from [60, 120) pixels per second.
pub const VEL_MIN: i64 = 60 * FP;
pub const VEL_MAX: i64 = 120 * FP;

/// Largest horizontal displacement of one frame: VEL_MAX * DT_MAX / FP.
pub const STEP_MAX: i64 = 120 * DT_MAX;

/// Half of DIM_MAX.
pub const HALF_DIM: i64 = 536870912;

/// Smallest teleport target: the left boundary of the widest body on the
/// widest viewport, -(HALF_DIM + WIDTH_MAX).
pub const TT_MIN: i64 = -HALF_DIM - WIDTH_MAX;

/// Horizontal positions stay within [TT_MIN - STEP_MAX, X_MAX] between the
/// movement and wrap steps, and within [TT_MIN, X_MAX] between frames.
pub const X_MAX: i64 = HALF_DIM + WIDTH_MAX + STEP_MAX;

/// Vertical positions stay within [-Y_MAX, Y_MAX].
pub const Y_MAX: i64 = HALF_DIM;

/// The primary viewport as the host reports it: an identifier and the current
/// fixed-point dimensions.
#[derive(Clone, Copy, PartialEq, Eq, Structural, Debug)]
pub struct Viewport {
    pub id: u64,
    pub width: i64,
    pub height: i64,
}

/// One "viewport resized" event from the host's queue.
#[derive(Clone, Copy, PartialEq, Eq, Structural, Debug)]
pub struct ResizeEvent {
    pub window: u64,
    pub width: i64,
    pub height: i64,
}

/// Dimensions the core accepts: positive and at most DIM_MAX.
pub open spec fn dims_ok(width: i64, height: i64) -> bool {
    0 < width <= DIM_MAX && 0 < height <= DIM_MAX
}

impl Viewport {
    pub open spec fn wf(self) -> bool {
        dims_ok(self.width, self.height)
    }
}

impl ResizeEvent {
    pub open spec fn wf(self) -> bool {
        dims_ok(self.width, self.height)
    }
}

/// An optional viewport the core accepts: absent, or well-formed.
pub open spec fn vp_ok(vp: Option<Viewport>) -> bool {
    match vp {
        Option::Some(v) => v.wf(),
        Option::None => true,
    }
}

} // verus!
