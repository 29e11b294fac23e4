use vstd::prelude::*;

verus! {

/// Coordinates are fixed-point: stored in hundredths of a pixel, so one pixel
/// per tick is a step of `SCALE`.
pub const SCALE: i64 = 100;

/// Coordinates are kept inside `[-COORD_LIMIT, COORD_LIMIT]` (one hundred
/// million pixels in either direction, far past any screen), so that position
/// arithmetic stays inside `i64` for any number of ticks.
pub const COORD_LIMIT: i64 = 10_000_000_000;

/// Largest step a single coordinate update may take.
pub const STEP_LIMIT: i64 = 1_000_000_000;

/// Largest accepted screen dimension, in pixels. Keeps the walking counters
/// and the frame arithmetic inside `i32`.
pub const MAX_DIM: u32 = 1_000_000;

pub open spec fn coord_in_range(v: int) -> bool {
    -(COORD_LIMIT as int) <= v <= COORD_LIMIT as int
}

/// Where a coordinate lands after a step: the exact sum, held inside the
/// coordinate range.
pub open spec fn coord_clamped(v: int) -> int {
    if v > COORD_LIMIT as int {
        COORD_LIMIT as int
    } else if v < -(COORD_LIMIT as int) {
        -(COORD_LIMIT as int)
    } else {
        v
    }
}

/// Advance a coordinate by a bounded step, clamping at the coordinate range.
pub fn coord_add(x: i64, d: i64) -> (r: i64)
    requires
        coord_in_range(x as int),
        -STEP_LIMIT <= d <= STEP_LIMIT,
    ensures
        r == coord_clamped(x + d),
        coord_in_range(r as int),
{
    let s: i64 = x + d;
    if s > COORD_LIMIT {
        COORD_LIMIT
    } else if s < -COORD_LIMIT {
        -COORD_LIMIT
    } else {
        s
    }
}

} // verus!
