//! Clock access. Readings of the monotonic clock depend on when they are
//! taken, so nothing is promised about them; the decisions that use them take
//! the elapsed milliseconds as arguments and are verified for every value.

use std::time::{Duration, Instant};
use vstd::prelude::*;

verus! {

#[verifier::external_type_specification]
#[verifier::external_body]
pub struct ExInstant(Instant);

/// `Instant` is `Copy`; its `clone` returns the same instant.
pub assume_specification[ <Instant as Clone>::clone ](i: &Instant) -> (r: Instant)
    ensures
        r == *i,
;

/// The `Duration` that `Duration::from_millis(ms)` builds.
pub uninterp spec fn millis_duration(ms: u64) -> Duration;

/// The whole milliseconds of a duration, as `Duration::as_millis` counts them.
pub uninterp spec fn duration_millis(d: Duration) -> u128;

/// `Duration::from_millis`: a duration of exactly `ms` milliseconds, which
/// depends on `ms` alone and holds `ms` whole milliseconds.
#[verifier::external_body]
pub(crate) fn duration_from_millis(ms: u64) -> (d: Duration)
    ensures
        d == millis_duration(ms),
        duration_millis(d) == ms,
        duration_nanos(d) == ms as int * 1_000_000,
{
    Duration::from_millis(ms)
}

/// `Duration::as_millis`: the total number of whole milliseconds.
#[verifier::external_body]
pub(crate) fn duration_as_millis(d: &Duration) -> (r: u128)
    ensures
        r == duration_millis(*d),
{
    d.as_millis()
}

/// The total nanoseconds of a duration, as `Duration::as_nanos` counts them.
pub uninterp spec fn duration_nanos(d: Duration) -> u128;

/// `<Duration as PartialOrd>::lt`: whether `a` is shorter than `b`, that is,
/// holds fewer nanoseconds.
#[verifier::external_body]
pub(crate) fn duration_lt(a: &Duration, b: &Duration) -> (r: bool)
    ensures
        r == (duration_nanos(*a) < duration_nanos(*b)),
{
    a < b
}

/// `Instant::now`: the current reading of the monotonic clock.
#[verifier::external_body]
pub(crate) fn instant_now() -> Instant {
    Instant::now()
}

/// `Instant::elapsed`: the time since `since`. The clock's reading is not
/// promised.
#[verifier::external_body]
pub(crate) fn elapsed_duration(since: &Instant) -> Duration {
    since.elapsed()
}

/// The whole milliseconds since `since`, cut to their low 64 bits as
/// `as u64` does (no real uptime reaches that).
pub(crate) fn elapsed_millis(since: &Instant) -> u64 {
    let d = elapsed_duration(since);
    let ms = duration_as_millis(&d);
    (ms % 0x1_0000_0000_0000_0000) as u64
}

} // verus!
