//! The scale of lengths and durations.

use vstd::prelude::*;

verus! {

/// Number of length units in one pixel.
pub const UNITS_PER_PIXEL: i32 = 60_000;

/// Number of clock ticks in one second.
pub const TICKS_PER_SECOND: u32 = 60_000;

/// Whether `v` can be stored as a coordinate.
pub open spec fn fits(v: int) -> bool {
    i32::MIN <= v <= i32::MAX
}

/// Distance in units covered in `dt` ticks at `speed` pixels per second.
pub open spec fn travel(speed: i32, dt: u32) -> int {
    speed * dt
}

/// Computes the distance covered in `dt` ticks at `speed` pixels per second.
pub fn distance(speed: i32, dt: u32) -> (d: i64)
    ensures
        d == travel(speed, dt),
        -0x7fff_ffff_8000_0000 <= d <= 0x7fff_ffff_8000_0000,
{
    assert(-0x7fff_ffff_8000_0000 <= speed * dt <= 0x7fff_ffff_8000_0000) by (nonlinear_arith)
        requires
            -0x8000_0000 <= speed <= 0x7fff_ffff,
            0 <= dt <= 0xffff_ffff,
    ;
    (speed as i64) * (dt as i64)
}

/// Length in units of a whole number of pixels.
pub fn pixels(n: i16) -> (len: i32)
    ensures
        len == n * UNITS_PER_PIXEL,
{
    (n as i32) * UNITS_PER_PIXEL
}

} // verus!
