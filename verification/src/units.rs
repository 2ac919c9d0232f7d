//! Fixed-point units of space and time.
//!
//! A position is a signed count of millionths of a pixel and a span of time is
//! an unsigned count of microseconds. An object that moves at `v` pixels per
//! second therefore covers exactly `v * t` position units in `t` microseconds.
//! Positions saturate at the ends of the `i64` range instead of wrapping.

use vstd::prelude::*;

verus! {

/// Position units in one pixel.
pub const UNIT: i64 = 1_000_000;

/// The position nearest to `v`: `v` itself where an `i64` holds it, else the
/// end of the range on the side of `v`.
pub open spec fn saturate(v: int) -> i64 {
    if v < i64::MIN as int {
        i64::MIN
    } else if v > i64::MAX as int {
        i64::MAX
    } else {
        v as i64
    }
}

/// Where a point that starts at `position` is after moving for `elapsed`
/// microseconds at `speed` pixels per second.
pub open spec fn displaced(position: i64, speed: int, elapsed: u64) -> i64 {
    saturate(position + speed * elapsed)
}

/// Whether `a` and `b` lie less than `reach` apart.
pub open spec fn closer_than(a: i64, b: i64, reach: i64) -> bool {
    -reach < a - b < reach
}

/// Moves `position` for `elapsed` microseconds at `speed` pixels per second,
/// stopping at the ends of the `i64` range.
pub fn displace(position: i64, speed: i64, elapsed: u64) -> (moved: i64)
    ensures
        moved == displaced(position, speed as int, elapsed),
{
    let wide_speed: i128 = speed as i128;
    let wide_elapsed: i128 = elapsed as i128;
    assert(-0x7fff_ffff_ffff_ffff_8000_0000_0000_0000 <= wide_speed * wide_elapsed
        <= 0x7fff_ffff_ffff_ffff_8000_0000_0000_0000) by (nonlinear_arith)
        requires
            -0x8000_0000_0000_0000 <= wide_speed <= 0x7fff_ffff_ffff_ffff,
            0 <= wide_elapsed <= 0xffff_ffff_ffff_ffff,
    ;
    let target: i128 = position as i128 + wide_speed * wide_elapsed;
    if target < i64::MIN as i128 {
        i64::MIN
    } else if target > i64::MAX as i128 {
        i64::MAX
    } else {
        target as i64
    }
}

/// Adds `step` to `position`, stopping at the ends of the `i64` range.
pub fn shift(position: i64, step: i64) -> (moved: i64)
    ensures
        moved == saturate(position + step),
{
    let target: i128 = position as i128 + step as i128;
    if target < i64::MIN as i128 {
        i64::MIN
    } else if target > i64::MAX as i128 {
        i64::MAX
    } else {
        target as i64
    }
}

/// Tests whether `a` and `b` lie less than `reach` apart.
pub fn is_closer_than(a: i64, b: i64, reach: i64) -> (near: bool)
    ensures
        near == closer_than(a, b, reach),
{
    let gap: i128 = a as i128 - b as i128;
    -(reach as i128) < gap && gap < reach as i128
}

/// Saturation keeps the order of positions: where `a` is not beyond `b`, the
/// position nearest to `a` is not beyond the position nearest to `b`.
pub proof fn lemma_saturate_monotone(a: int, b: int)
    requires
        a <= b,
    ensures
        saturate(a) <= saturate(b),
{
}

} // verus!
