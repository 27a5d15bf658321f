//! Microseconds and whole seconds.

use vstd::prelude::*;

verus! {

/// Microseconds in one second.
pub const MICROS_PER_SECOND: i128 = 1_000_000;

/// Quotient of `a` by a positive `b`, rounded toward zero.
pub open spec fn truncated_quotient(a: int, b: int) -> int {
    if a >= 0 {
        a / b
    } else {
        -((-a) / b)
    }
}

/// What is left of `a` once `truncated_quotient(a, b)` times `b` is taken
/// away; it has the sign of `a`.
pub open spec fn truncated_remainder(a: int, b: int) -> int {
    a - b * truncated_quotient(a, b)
}

/// Whole seconds in a span of microseconds. The fraction is dropped, so the
/// result is rounded toward zero, never to the nearest second.
pub fn micro_seconds_to_seconds(micro_seconds: i128) -> (seconds: i128)
    ensures
        seconds == truncated_quotient(micro_seconds as int, MICROS_PER_SECOND as int),
{
    micro_seconds / MICROS_PER_SECOND
}

} // verus!
