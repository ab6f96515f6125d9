//! Instants of a high-resolution performance counter: a tick count read together
//! with the counter's frequency in ticks per second, kept as nanoseconds.
use crate::duration::{dur_nanos, max_dur_nanos, secs_of, subsec_of, NANOS_PER_SEC};
use crate::sys_common::mul_div_u64;
use core::time::Duration;
use vstd::prelude::*;

verus! {

/// A raw reading of the performance counter, in ticks since an arbitrary epoch.
#[derive(Copy, Clone, PartialEq, Eq, Debug, Hash)]
pub struct PerformanceCounterInstant {
    pub ts: i64,
}

/// Nanoseconds in one tick of a counter running at `frequency` ticks per second.
pub open spec fn tick_nanos(frequency: i64) -> int {
    NANOS_PER_SEC as int / frequency as int
}

/// Nanoseconds since the epoch of a counter reading at `frequency` ticks per second.
pub open spec fn ticks_to_nanos(ts: i64, frequency: i64) -> int {
    (ts as u64) * (NANOS_PER_SEC as int) / (frequency as int)
}

/// A duration built from a number of nanoseconds has that length.
proof fn lemma_from_nanos_length(n: u64, d: Duration)
    requires
        secs_of(d) == n / NANOS_PER_SEC,
        subsec_of(d) == n % NANOS_PER_SEC,
    ensures
        dur_nanos(d) == n,
{
    vstd::arithmetic::div_mod::lemma_fundamental_div_mod(n as int, NANOS_PER_SEC as int);
}

impl PerformanceCounterInstant {
    /// The margin of error of comparisons between readings taken on different
    /// threads: one tick of the counter.
    pub fn epsilon(frequency: i64) -> (r: Duration)
        requires
            frequency > 0,
        ensures
            dur_nanos(r) == tick_nanos(frequency),
    {
        let n = NANOS_PER_SEC / (frequency as u64);
        let r = Duration::from_nanos(n);
        proof {
            lemma_from_nanos_length(n, r);
        }
        r
    }
}

/// A reading of the performance counter, converted to nanoseconds.
#[derive(Copy, Clone, PartialEq, Eq, PartialOrd, Ord, Debug, Hash)]
pub struct Instant {
    pub t: Duration,
}

impl Instant {
    /// Nanoseconds since the counter's epoch.
    pub open spec fn total(self) -> int {
        dur_nanos(self.t)
    }

    /// The instant of a counter reading just taken, at the counter's frequency in
    /// ticks per second. The tick count is read as unsigned.
    pub fn now(counter: PerformanceCounterInstant, frequency: i64) -> (r: Instant)
        requires
            frequency > 0,
            ticks_to_nanos(counter.ts, frequency) <= u64::MAX,
        ensures
            r.total() == ticks_to_nanos(counter.ts, frequency),
    {
        let nanos = mul_div_u64(counter.ts as u64, NANOS_PER_SEC, frequency as u64);
        let t = Duration::from_nanos(nanos);
        proof {
            lemma_from_nanos_length(nanos, t);
        }
        Instant { t }
    }

    /// The time from `other` to `self`. Where `other` is later by no more than one
    /// tick of a counter at `frequency`, the two count as simultaneous and the result
    /// is zero; where it is later by more, the result is `None`.
    pub fn checked_sub_instant(&self, other: &Instant, frequency: i64) -> (r: Option<Duration>)
        requires
            frequency > 0,
        ensures
            self.total() < other.total() <= self.total() + tick_nanos(frequency) ==> r.is_some()
                && dur_nanos(r.unwrap()) == 0,
            !(self.total() < other.total() <= self.total() + tick_nanos(frequency)) ==> (
            r.is_some() <==> other.total() <= self.total()),
            other.total() <= self.total() ==> r.is_some() && dur_nanos(r.unwrap()) == self.total()
                - other.total(),
    {
        let epsilon = PerformanceCounterInstant::epsilon(frequency);
        let within = match other.t.checked_sub(self.t) {
            Some(gap) => !gap.is_zero() && epsilon.checked_sub(gap).is_some(),
            None => false,
        };
        if within {
            let zero = Duration::new(0, 0);
            Some(zero)
        } else {
            self.t.checked_sub(other.t)
        }
    }

    /// The instant `other` after this one, or `None` where it is not representable.
    pub fn checked_add_duration(&self, other: &Duration) -> (r: Option<Instant>)
        ensures
            r.is_some() <==> self.total() + dur_nanos(*other) <= max_dur_nanos(),
            r.is_some() ==> r.unwrap().total() == self.total() + dur_nanos(*other),
    {
        match self.t.checked_add(*other) {
            Some(t) => Some(Instant { t }),
            None => None,
        }
    }

    /// The instant `other` before this one, or `None` where it is not representable.
    pub fn checked_sub_duration(&self, other: &Duration) -> (r: Option<Instant>)
        ensures
            r.is_some() <==> dur_nanos(*other) <= self.total(),
            r.is_some() ==> r.unwrap().total() == self.total() - dur_nanos(*other),
    {
        match self.t.checked_sub(*other) {
            Some(t) => Some(Instant { t }),
            None => None,
        }
    }
}

} // verus!
