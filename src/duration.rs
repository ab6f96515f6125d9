//! What the library relies on of `core::time::Duration`.
//!
//! A duration is modelled by its length in nanoseconds, [`dur_nanos`], built from
//! the two parts that `as_secs` and `subsec_nanos` report.
use core::time::Duration;
use vstd::prelude::*;

verus! {

/// Nanoseconds in one second.
pub const NANOS_PER_SEC: u64 = 1_000_000_000;

/// The whole seconds of a duration, as `Duration::as_secs` reports them.
pub uninterp spec fn secs_of(d: Duration) -> u64;

/// The fractional part of a duration in nanoseconds, as `Duration::subsec_nanos`
/// reports it.
pub uninterp spec fn subsec_of(d: Duration) -> u32;

/// The length of a duration in nanoseconds.
pub open spec fn dur_nanos(d: Duration) -> int {
    secs_of(d) * NANOS_PER_SEC + subsec_of(d)
}

/// The length in nanoseconds of the longest representable duration.
pub open spec fn max_dur_nanos() -> int {
    u64::MAX * NANOS_PER_SEC + (NANOS_PER_SEC - 1)
}

/// Relies on `Duration::as_secs`: the whole seconds of the duration.
pub assume_specification[ Duration::as_secs ](d: &Duration) -> (r: u64)
    ensures
        r == secs_of(*d),
;

/// Relies on `Duration::subsec_nanos`: the fractional part, always under one second.
pub assume_specification[ Duration::subsec_nanos ](d: &Duration) -> (r: u32)
    ensures
        r == subsec_of(*d),
        r < NANOS_PER_SEC,
;

/// Relies on `Duration::new`: seconds plus nanoseconds, the nanoseconds carried into
/// seconds; it panics only when that carry overflows the seconds.
pub assume_specification[ Duration::new ](secs: u64, nanos: u32) -> (r: Duration)
    requires
        secs + (nanos as int) / (NANOS_PER_SEC as int) <= u64::MAX,
    ensures
        secs_of(r) == secs + (nanos as int) / (NANOS_PER_SEC as int),
        subsec_of(r) == (nanos as int) % (NANOS_PER_SEC as int),
;

/// Relies on `Duration::from_nanos`: a duration of the given number of nanoseconds.
pub assume_specification[ Duration::from_nanos ](nanos: u64) -> (r: Duration)
    ensures
        secs_of(r) == nanos / NANOS_PER_SEC,
        subsec_of(r) == nanos % NANOS_PER_SEC,
;

/// Relies on `Duration::checked_add`: the sum, or `None` when it overflows.
pub assume_specification[ Duration::checked_add ](a: Duration, b: Duration) -> (r: Option<
    Duration,
>)
    ensures
        r.is_some() <==> dur_nanos(a) + dur_nanos(b) <= max_dur_nanos(),
        r.is_some() ==> dur_nanos(r.unwrap()) == dur_nanos(a) + dur_nanos(b)
            && subsec_of(r.unwrap()) < NANOS_PER_SEC,
;

/// Relies on `Duration::checked_sub`: the difference, or `None` when it would be negative.
pub assume_specification[ Duration::checked_sub ](a: Duration, b: Duration) -> (r: Option<
    Duration,
>)
    ensures
        r.is_some() <==> dur_nanos(b) <= dur_nanos(a),
        r.is_some() ==> dur_nanos(r.unwrap()) == dur_nanos(a) - dur_nanos(b)
            && subsec_of(r.unwrap()) < NANOS_PER_SEC,
;

/// Relies on `Duration::is_zero`: whether the duration spans no time.
pub assume_specification[ Duration::is_zero ](d: &Duration) -> (r: bool)
    ensures
        r <==> dur_nanos(*d) == 0,
;

} // verus!
