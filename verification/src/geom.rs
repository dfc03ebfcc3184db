//! Fixed-point geometry helpers shared by the car, obstacle, camera
//! and background logic.
//!
//! Lengths given in reference pixels (the coordinate space of a
//! window 1080 pixels tall) are scaled by `height / 1080` before they
//! are drawn in a window `height` pixels tall.  On-screen positions
//! and lengths are held in milli-pixels so the scaling stays exact
//! integer arithmetic.

use vstd::prelude::*;

verus! {

/// Largest on-screen coordinate, in milli-pixels, that the update
/// functions accept; it keeps every intermediate product inside `i64`.
pub const POS_LIMIT_MPX: i64 = 4_000_000_000_000;

/// Largest speed, in milli-pixels per second, that the update
/// functions accept.
pub const SPEED_LIMIT_MPX_S: i64 = 10_000_000;

/// Largest frame delta, in milliseconds, that the update functions
/// accept.
pub const DT_LIMIT_MS: u32 = 60_000;

/// Largest window width or height, in pixels, that the update
/// functions accept.
pub const WINDOW_LIMIT_PX: u32 = 100_000;

pub open spec fn abs_val(x: int) -> int {
    if x < 0 { -x } else { x }
}

pub open spec fn spec_clamp(v: int, lo: int, hi: int) -> int {
    if v < lo {
        lo
    } else if v > hi {
        hi
    } else {
        v
    }
}

/// Restrict `v` to the closed interval `[lo, hi]`.
pub fn clamp_i64(v: i64, lo: i64, hi: i64) -> (r: i64)
    requires
        lo <= hi,
    ensures
        r == spec_clamp(v as int, lo as int, hi as int),
{
    if v < lo {
        lo
    } else if v > hi {
        hi
    } else {
        v
    }
}

/// Displacement covered in `dt_ms` milliseconds at `speed`
/// milli-pixels per second, rounded toward zero.
pub open spec fn spec_travel(speed: int, dt_ms: int) -> int {
    if speed >= 0 {
        speed * dt_ms / 1000
    } else {
        -((-speed) * dt_ms / 1000)
    }
}

pub fn travel(speed: i64, dt_ms: u32) -> (r: i64)
    requires
        -SPEED_LIMIT_MPX_S <= speed <= SPEED_LIMIT_MPX_S,
        dt_ms <= DT_LIMIT_MS,
    ensures
        r == spec_travel(speed as int, dt_ms as int),
        -600_000_000 <= r <= 600_000_000,
{
    if speed >= 0 {
        assert((speed as int) * (dt_ms as int) <= 600_000_000_000) by (nonlinear_arith)
            requires
                0 <= speed as int <= 10_000_000,
                0 <= dt_ms as int <= 60_000,
        ;
        let prod: u64 = (speed as u64) * (dt_ms as u64);
        assert(prod / 1000 <= prod);
        (prod / 1000) as i64
    } else {
        let mag: i64 = -speed;
        assert((mag as int) * (dt_ms as int) <= 600_000_000_000) by (nonlinear_arith)
            requires
                0 <= mag as int <= 10_000_000,
                0 <= dt_ms as int <= 60_000,
        ;
        let prod: u64 = (mag as u64) * (dt_ms as u64);
        assert(prod / 1000 <= prod);
        -((prod / 1000) as i64)
    }
}

/// Length `len_px` of the reference space, expressed in window
/// milli-pixels for a window `height_px` pixels tall.
pub open spec fn spec_scaled_len(len_px: int, height_px: int) -> int {
    len_px * height_px * 1000 / 1080
}

pub fn scaled_len(len_px: u32, height_px: u32) -> (r: i64)
    requires
        len_px <= WINDOW_LIMIT_PX,
        height_px <= WINDOW_LIMIT_PX,
    ensures
        r == spec_scaled_len(len_px as int, height_px as int),
        0 <= r <= len_px * height_px * 1000,
{
    assert((len_px as int) * (height_px as int) * 1000 <= 10_000_000_000_000) by (nonlinear_arith)
        requires
            0 <= len_px as int <= 100_000,
            0 <= height_px as int <= 100_000,
    ;
    let prod: u64 = (len_px as u64) * (height_px as u64) * 1000;
    assert(prod / 1080 <= prod);
    (prod / 1080) as i64
}

} // verus!
