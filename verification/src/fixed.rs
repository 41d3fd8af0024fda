//! Fixed-point arithmetic in millionths.
//!
//! A fraction `x` is represented by the integer `x * 1_000_000`. Indicator
//! values may be any `i64`: producers are not trusted, and nothing they send
//! is turned away. An indicator that is a fraction is limited to the range
//! from zero to one where it is read (see [`limited`]). Scores always lie
//! between `0` and [`UNIT`].

use vstd::prelude::*;

verus! {

/// The representation of `1.0`.
pub const UNIT: i64 = 1_000_000;

/// `x` limited to the closed interval from `lo` to `hi`.
pub open spec fn clamp(x: int, lo: int, hi: int) -> int {
    if x < lo {
        lo
    } else if x > hi {
        hi
    } else {
        x
    }
}

/// Whether `x` is a score: a fraction between zero and one, ends included.
pub open spec fn is_score(x: int) -> bool {
    0 <= x <= UNIT
}

/// A fraction as it is read from a producer: limited to the range from zero
/// to one.
pub open spec fn limited(x: int) -> int {
    clamp(x, 0, UNIT as int)
}

/// `value` limited to the range from zero to one.
pub fn limit(value: i64) -> (r: i64)
    ensures
        r == limited(value as int),
        is_score(r as int),
{
    if value < 0 {
        0
    } else if value > UNIT {
        UNIT
    } else {
        value
    }
}

/// Limits a wide intermediate value to the range of scores.
pub fn clamp_to_score(x: i128) -> (r: i64)
    ensures
        r == clamp(x as int, 0, UNIT as int),
        is_score(r as int),
{
    if x < 0 {
        0
    } else if x > 1_000_000 {
        UNIT
    } else {
        x as i64
    }
}

} // verus!
