//! Time spans and clock readings, counted in nanoseconds.
//!
//! `std::time::Duration` is opaque to the verifier, so the library counts time
//! in nanoseconds, which is the resolution of `Duration`: every `Duration`
//! has exactly one such count, and the counts of all durations lie in
//! `0..=MAX_NANOS`.

use vstd::prelude::*;

verus! {

/// A span of time, or a reading of a monotonic clock, in nanoseconds.
pub type Nanos = u128;

/// Nanoseconds in one second.
pub const NANOS_PER_SEC: u128 = 1_000_000_000;

/// The count of `Duration::MAX`: `u64::MAX` seconds and 999,999,999 nanoseconds.
/// Adding durations past it panics in the standard library.
pub const MAX_NANOS: u128 = 18_446_744_073_709_551_615_999_999_999;

/// The span of `secs` whole seconds, as `Duration::from_secs` makes it.
pub open spec fn secs_span(secs: u64) -> int {
    secs * NANOS_PER_SEC
}

/// What a clock read at `now` gives as the time passed since `start`; like
/// `Instant::elapsed`, it is zero when `now` is not after `start`.
pub open spec fn since(start: int, now: int) -> int {
    if now >= start {
        now - start
    } else {
        0
    }
}

/// `Duration::from_secs(secs)`, as a span.
pub fn from_secs(secs: u64) -> (r: Nanos)
    ensures
        r == secs_span(secs),
        r <= MAX_NANOS,
{
    assert(secs * NANOS_PER_SEC <= 18_446_744_073_709_551_615 * 1_000_000_000) by (nonlinear_arith)
        requires
            secs <= 18_446_744_073_709_551_615u64,
    ;
    (secs as u128) * NANOS_PER_SEC
}

} // verus!
