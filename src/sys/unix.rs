//! Instants of a suspend-aware monotonic clock read as a pair of seconds and
//! nanoseconds.
use crate::duration::{dur_nanos, NANOS_PER_SEC};
use core::time::Duration;
use vstd::arithmetic::div_mod::lemma_fundamental_div_mod_converse;
use vstd::prelude::*;

verus! {

/// The smallest number of nanoseconds that a [`Timespec`] can hold.
pub open spec fn min_nanos() -> int {
    i64::MIN * NANOS_PER_SEC
}

/// The largest number of nanoseconds that a [`Timespec`] can hold.
pub open spec fn max_nanos() -> int {
    i64::MAX * NANOS_PER_SEC + (NANOS_PER_SEC - 1)
}

/// Whether a number of nanoseconds since the clock's epoch is representable.
pub open spec fn in_range(n: int) -> bool {
    min_nanos() <= n <= max_nanos()
}

/// The clock reading `n` nanoseconds after the epoch.
pub open spec fn timespec_of(n: int) -> Timespec {
    Timespec { secs: (n / NANOS_PER_SEC as int) as i64, nanos: (n % NANOS_PER_SEC as int) as u32 }
}

/// Seconds and nanoseconds since an arbitrary epoch chosen by the platform.
#[derive(Copy, Clone, PartialEq, Eq, Structural, PartialOrd, Ord, Debug, Hash)]
pub struct Timespec {
    pub secs: i64,
    pub nanos: u32,
}

impl Timespec {
    /// The nanoseconds part is below one second.
    pub open spec fn wf(self) -> bool {
        self.nanos < NANOS_PER_SEC
    }

    /// Nanoseconds since the epoch.
    pub open spec fn total(self) -> int {
        self.secs * NANOS_PER_SEC + self.nanos
    }
}

/// A well-formed reading is the reading of its own number of nanoseconds.
pub proof fn lemma_timespec_of_total(t: Timespec)
    requires
        t.wf(),
    ensures
        timespec_of(t.total()) == t,
        in_range(t.total()),
{
    lemma_fundamental_div_mod_converse(
        t.total(),
        NANOS_PER_SEC as int,
        t.secs as int,
        t.nanos as int,
    );
}

/// The reading of a representable number of nanoseconds is well formed and holds it.
pub proof fn lemma_total_timespec_of(n: int)
    requires
        in_range(n),
    ensures
        timespec_of(n).wf(),
        timespec_of(n).total() == n,
{
    let s = n / NANOS_PER_SEC as int;
    let m = n % NANOS_PER_SEC as int;
    assert(n == s * NANOS_PER_SEC + m && 0 <= m < NANOS_PER_SEC) by {
        vstd::arithmetic::div_mod::lemma_fundamental_div_mod(n, NANOS_PER_SEC as int);
    }
    assert(i64::MIN <= s <= i64::MAX) by (nonlinear_arith)
        requires
            n == s * NANOS_PER_SEC + m,
            0 <= m < NANOS_PER_SEC,
            in_range(n),
    ;
}

/// `a - b` for `b <= a`, which always fits in 64 unsigned bits.
fn secs_between(a: i64, b: i64) -> (r: u64)
    requires
        b <= a,
    ensures
        r == a - b,
{
    if b >= 0 || a < 0 {
        (a - b) as u64
    } else {
        a as u64 + (-(b + 1)) as u64 + 1
    }
}

/// `a + b`, or `None` where the sum leaves the range of `i64`.
fn checked_add_unsigned(a: i64, b: u64) -> (r: Option<i64>)
    ensures
        r.is_some() <==> a + b <= i64::MAX,
        r.is_some() ==> r.unwrap() == a + b,
{
    let room: u64 = secs_between(i64::MAX, a);
    if b > room {
        None
    } else if a >= 0 {
        Some((a as u64 + b) as i64)
    } else if b <= i64::MAX as u64 {
        Some(a + b as i64)
    } else {
        Some((b - (-(a + 1)) as u64 - 1) as i64)
    }
}

/// `a - b`, or `None` where the difference leaves the range of `i64`.
fn checked_sub_unsigned(a: i64, b: u64) -> (r: Option<i64>)
    ensures
        r.is_some() <==> a - b >= i64::MIN,
        r.is_some() ==> r.unwrap() == a - b,
{
    let room: u64 = secs_between(a, i64::MIN);
    if b > room {
        None
    } else if a < 0 {
        Some(a - b as i64)
    } else if b <= i64::MAX as u64 {
        Some(a - b as i64)
    } else {
        Some(-((b - a as u64 - 1) as i64) - 1)
    }
}

/// A reading of the suspend-aware monotonic clock.
#[derive(Copy, Clone, PartialEq, Eq, Structural, PartialOrd, Ord, Debug, Hash)]
pub struct Instant {
    pub t: Timespec,
}

/// Relies on `rustix::time::clock_gettime` with `ClockId::Boottime`: the clock that
/// keeps counting while the system is suspended. Its `tv_nsec` is documented as
/// under one second and, per POSIX `clock_gettime`, is never negative.
#[verifier::external_body]
fn read_boottime() -> (r: (i64, i64))
    ensures
        0 <= r.1 < NANOS_PER_SEC,
{
    let ts = rustix::time::clock_gettime(rustix::time::ClockId::Boottime);
    (ts.tv_sec, ts.tv_nsec)
}

impl Instant {
    /// The reading is well formed.
    pub open spec fn wf(self) -> bool {
        self.t.wf()
    }

    /// Nanoseconds since the clock's epoch.
    pub open spec fn total(self) -> int {
        self.t.total()
    }

    /// The reading `n` nanoseconds after this one, where it is representable.
    pub open spec fn add_nanos(self, n: int) -> Option<Instant> {
        if in_range(self.total() + n) {
            Some(Instant { t: timespec_of(self.total() + n) })
        } else {
            None
        }
    }

    /// The reading `n` nanoseconds before this one, where it is representable.
    pub open spec fn sub_nanos(self, n: int) -> Option<Instant> {
        self.add_nanos(-n)
    }

    /// Reads the clock.
    pub fn now() -> (r: Instant)
        ensures
            r.wf(),
    {
        let (secs, nanos) = read_boottime();
        Instant { t: Timespec { secs, nanos: nanos as u32 } }
    }

    /// The time from `other` to `self`, or `None` where `other` is the later one.
    pub fn checked_sub_instant(&self, other: &Instant) -> (r: Option<Duration>)
        requires
            self.wf(),
            other.wf(),
        ensures
            r.is_some() <==> other.total() <= self.total(),
            r.is_some() ==> dur_nanos(r.unwrap()) == self.total() - other.total(),
    {
        let a = self.t;
        let b = other.t;
        if a.secs > b.secs || (a.secs == b.secs && a.nanos >= b.nanos) {
            let (secs, nanos) = if a.nanos >= b.nanos {
                (secs_between(a.secs, b.secs), a.nanos - b.nanos)
            } else {
                (secs_between(a.secs, b.secs) - 1, a.nanos + NANOS_PER_SEC as u32 - b.nanos)
            };
            let d = Duration::new(secs, nanos);
            proof {
                vstd::arithmetic::div_mod::lemma_small_mod(nanos as nat, NANOS_PER_SEC as nat);
                vstd::arithmetic::div_mod::lemma_basic_div(nanos as int, NANOS_PER_SEC as int);
            }
            Some(d)
        } else {
            None
        }
    }

    /// The reading `other` after this one, or `None` where it is not representable.
    pub fn checked_add_duration(&self, other: &Duration) -> (r: Option<Instant>)
        requires
            self.wf(),
        ensures
            r == self.add_nanos(dur_nanos(*other)),
    {
        let d_secs = other.as_secs();
        let d_nanos = other.subsec_nanos();
        let ghost target: int = self.total() + dur_nanos(*other);
        match checked_add_unsigned(self.t.secs, d_secs) {
            None => {
                assert(!in_range(target)) by (nonlinear_arith)
                    requires
                        self.t.secs + d_secs > i64::MAX,
                        target == (self.t.secs + d_secs) * NANOS_PER_SEC + self.t.nanos + d_nanos,
                ;
                None
            },
            Some(secs) => {
                let nanos = self.t.nanos + d_nanos;
                if nanos >= NANOS_PER_SEC as u32 {
                    if secs == i64::MAX {
                        None
                    } else {
                        let t = Timespec { secs: secs + 1, nanos: nanos - NANOS_PER_SEC as u32 };
                        proof {
                            lemma_timespec_of_total(t);
                        }
                        Some(Instant { t })
                    }
                } else {
                    let t = Timespec { secs, nanos };
                    proof {
                        lemma_timespec_of_total(t);
                    }
                    Some(Instant { t })
                }
            },
        }
    }

    /// The reading `other` before this one, or `None` where it is not representable.
    pub fn checked_sub_duration(&self, other: &Duration) -> (r: Option<Instant>)
        requires
            self.wf(),
        ensures
            r == self.sub_nanos(dur_nanos(*other)),
    {
        let d_secs = other.as_secs();
        let d_nanos = other.subsec_nanos();
        let ghost target: int = self.total() - dur_nanos(*other);
        match checked_sub_unsigned(self.t.secs, d_secs) {
            None => {
                assert(!in_range(target)) by (nonlinear_arith)
                    requires
                        self.t.secs - d_secs < i64::MIN,
                        target == (self.t.secs - d_secs) * NANOS_PER_SEC + self.t.nanos - d_nanos,
                        self.t.nanos < NANOS_PER_SEC,
                ;
                None
            },
            Some(secs) => {
                if self.t.nanos >= d_nanos {
                    let t = Timespec { secs, nanos: self.t.nanos - d_nanos };
                    proof {
                        lemma_timespec_of_total(t);
                    }
                    Some(Instant { t })
                } else if secs == i64::MIN {
                    None
                } else {
                    let t = Timespec {
                        secs: secs - 1,
                        nanos: self.t.nanos + NANOS_PER_SEC as u32 - d_nanos,
                    };
                    proof {
                        lemma_timespec_of_total(t);
                    }
                    Some(Instant { t })
                }
            },
        }
    }
}

} // verus!
