//! The suspend-aware `Instant`.
use crate::duration::{dur_nanos, secs_of};
use crate::sys::unix;
use core::time::Duration;
use vstd::prelude::*;
use vstd::std_specs::ops::AddSpec;

verus! {

/// A measurement of a suspend-aware monotonically nondecreasing clock.
///
/// Instants are opaque: they can be compared, subtracted to give a [`Duration`],
/// and moved by a [`Duration`]. Instants from different processes or boots are
/// not comparable, since the clock's epoch is arbitrary.
#[derive(Copy, Clone, PartialEq, Eq, Structural, PartialOrd, Ord, Debug, Hash)]
pub struct Instant(unix::Instant);

impl Instant {
    /// The instant is a well-formed clock reading. Every instant is: callers learn
    /// it of a value `a` with `use_type_invariant(&a)`.
    #[verifier::type_invariant]
    pub closed spec fn wf(self) -> bool {
        self.0.wf()
    }

    /// The clock reading held.
    pub closed spec fn reading(self) -> unix::Instant {
        self.0
    }

    /// Nanoseconds since the clock's epoch.
    pub open spec fn total(self) -> int {
        self.reading().total()
    }

    /// The instant of a clock reading.
    pub closed spec fn of_reading(t: unix::Instant) -> Instant {
        Instant(t)
    }

    /// The instant `n` nanoseconds after this one, where it is representable.
    pub open spec fn add_nanos(self, n: int) -> Option<Instant> {
        match self.reading().add_nanos(n) {
            Some(t) => Some(Instant::of_reading(t)),
            None => None,
        }
    }

    /// The instant `n` nanoseconds before this one, where it is representable.
    pub open spec fn sub_nanos(self, n: int) -> Option<Instant> {
        self.add_nanos(-n)
    }

    /// Nanoseconds from `earlier` to this instant, or zero where `earlier` is later.
    pub open spec fn nanos_since(self, earlier: Instant) -> int {
        if earlier.total() <= self.total() {
            self.total() - earlier.total()
        } else {
            0
        }
    }

    /// Returns an instant corresponding to "now".
    pub fn now() -> (r: Instant)
        ensures
            r.wf(),
    {
        Instant(unix::Instant::now())
    }

    /// The time elapsed from `earlier` to this instant, or zero where `earlier` is
    /// the later of the two.
    pub fn duration_since(&self, earlier: Instant) -> (r: Duration)
        ensures
            dur_nanos(r) == self.nanos_since(earlier),
    {
        self.saturating_duration_since(earlier)
    }

    /// The time elapsed from `earlier` to this instant, or `None` where `earlier` is
    /// the later of the two.
    pub fn checked_duration_since(&self, earlier: Instant) -> (r: Option<Duration>)
        ensures
            r.is_some() <==> earlier.total() <= self.total(),
            r.is_some() ==> dur_nanos(r.unwrap()) == self.total() - earlier.total(),
    {
        proof {
            use_type_invariant(self);
            use_type_invariant(&earlier);
        }
        self.0.checked_sub_instant(&earlier.0)
    }

    /// The time elapsed from `earlier` to this instant, or zero where `earlier` is
    /// the later of the two.
    pub fn saturating_duration_since(&self, earlier: Instant) -> (r: Duration)
        ensures
            dur_nanos(r) == self.nanos_since(earlier),
    {
        match self.checked_duration_since(earlier) {
            Some(d) => d,
            None => Duration::new(0, 0),
        }
    }

    /// The time elapsed since this instant: a reading of the clock now, minus this
    /// instant, or zero where the clock reads earlier.
    pub fn elapsed(&self) -> (r: Duration)
        ensures
            dur_nanos(r) >= 0,
            exists|later: Instant| later.wf() && #[trigger] later.nanos_since(*self) == dur_nanos(r),
    {
        let later = Instant::now();
        let r = later.duration_since(*self);
        assert(later.nanos_since(*self) == dur_nanos(r));
        r
    }

    /// The instant `duration` after this one, or `None` where it is not representable.
    pub fn checked_add(&self, duration: Duration) -> (r: Option<Instant>)
        ensures
            r == self.add_nanos(dur_nanos(duration)),
            r.is_some() <==> unix::in_range(self.total() + dur_nanos(duration)),
            r.is_some() ==> r.unwrap().wf() && r.unwrap().total() == self.total() + dur_nanos(
                duration,
            ),
    {
        proof {
            use_type_invariant(self);
        }
        match self.0.checked_add_duration(&duration) {
            Some(t) => {
                proof {
                    unix::lemma_total_timespec_of(self.total() + dur_nanos(duration));
                }
                Some(Instant(t))
            },
            None => None,
        }
    }

    /// The instant `duration` before this one, or `None` where it is not representable.
    pub fn checked_sub(&self, duration: Duration) -> (r: Option<Instant>)
        ensures
            r == self.sub_nanos(dur_nanos(duration)),
            r.is_some() <==> unix::in_range(self.total() - dur_nanos(duration)),
            r.is_some() ==> r.unwrap().wf() && r.unwrap().total() == self.total() - dur_nanos(
                duration,
            ),
    {
        proof {
            use_type_invariant(self);
        }
        match self.0.checked_sub_duration(&duration) {
            Some(t) => {
                proof {
                    unix::lemma_total_timespec_of(self.total() - dur_nanos(duration));
                }
                Some(Instant(t))
            },
            None => None,
        }
    }
}

impl core::ops::Add<Duration> for Instant {
    type Output = Instant;

    /// The instant `other` after this one; the sum must be representable (see
    /// [`Instant::checked_add`] for the form that reports overflow).
    fn add(self, other: Duration) -> (r: Instant) {
        self.checked_add(other).expect("overflow when adding duration to instant")
    }
}

impl vstd::std_specs::ops::AddSpecImpl<Duration> for Instant {
    open spec fn obeys_add_spec() -> bool {
        true
    }

    open spec fn add_req(self, other: Duration) -> bool {
        self.add_nanos(dur_nanos(other)).is_some()
    }

    open spec fn add_spec(self, other: Duration) -> Instant {
        self.add_nanos(dur_nanos(other)).unwrap()
    }
}

impl core::ops::Sub<Duration> for Instant {
    type Output = Instant;

    /// The instant `other` before this one; the difference must be representable
    /// (see [`Instant::checked_sub`] for the form that reports overflow).
    fn sub(self, other: Duration) -> (r: Instant) {
        self.checked_sub(other).expect("overflow when subtracting duration from instant")
    }
}

impl vstd::std_specs::ops::SubSpecImpl<Duration> for Instant {
    open spec fn obeys_sub_spec() -> bool {
        true
    }

    open spec fn sub_req(self, other: Duration) -> bool {
        self.sub_nanos(dur_nanos(other)).is_some()
    }

    open spec fn sub_spec(self, other: Duration) -> Instant {
        self.sub_nanos(dur_nanos(other)).unwrap()
    }
}

impl core::ops::Sub<Instant> for Instant {
    type Output = Duration;

    /// The time elapsed from `other` to this instant, or zero where `other` is the
    /// later of the two.
    fn sub(self, other: Instant) -> (r: Duration)
        ensures
            dur_nanos(r) == self.nanos_since(other),
    {
        self.duration_since(other)
    }
}

impl vstd::std_specs::ops::SubSpecImpl<Instant> for Instant {
    /// Only the length of the result is known, which [`Instant::duration_since`]
    /// states.
    open spec fn obeys_sub_spec() -> bool {
        false
    }

    open spec fn sub_req(self, other: Instant) -> bool {
        true
    }

    open spec fn sub_spec(self, other: Instant) -> Duration {
        arbitrary()
    }
}

/// An instant is the instant of the reading it holds, and the reading of the
/// instant of a reading is that reading.
pub proof fn lemma_reading_of_reading(a: Instant, t: unix::Instant)
    ensures
        Instant::of_reading(a.reading()) == a,
        Instant::of_reading(t).reading() == t,
{
}

/// Every instant lies within the clock's range.
pub proof fn lemma_wf_in_range(a: Instant)
    requires
        a.wf(),
    ensures
        unix::in_range(a.total()),
{
    unix::lemma_timespec_of_total(a.reading().t);
}

/// Instants are equal exactly when they lie the same number of nanoseconds after
/// the epoch.
pub proof fn lemma_total_determines(a: Instant, b: Instant)
    requires
        a.wf(),
        b.wf(),
    ensures
        a == b <==> a.total() == b.total(),
{
    unix::lemma_timespec_of_total(a.reading().t);
    unix::lemma_timespec_of_total(b.reading().t);
}

/// Wherever the target lies within the clock's range, adding a duration succeeds,
/// and the operator `+` gives what `checked_add` gives.
pub proof fn lemma_add_within_range(a: Instant, d: Duration)
    requires
        a.wf(),
        a.total() + dur_nanos(d) <= unix::max_nanos(),
    ensures
        a.add_nanos(dur_nanos(d)).is_some(),
        a.add_req(d),
        a.add_spec(d) == a.add_nanos(dur_nanos(d)).unwrap(),
{
    unix::lemma_timespec_of_total(a.reading().t);
}

/// Total nanoseconds of a list of durations.
pub open spec fn sum_nanos(ds: Seq<Duration>) -> int
    decreases ds.len(),
{
    if ds.len() == 0 {
        0
    } else {
        sum_nanos(ds.drop_last()) + dur_nanos(ds.last())
    }
}

/// Adds the durations to `start` one at a time, stopping at the first overflow.
pub open spec fn add_each(start: Option<Instant>, ds: Seq<Duration>) -> Option<Instant>
    decreases ds.len(),
{
    if ds.len() == 0 {
        start
    } else {
        match add_each(start, ds.drop_last()) {
            Some(t) => t.add_nanos(dur_nanos(ds.last())),
            None => None,
        }
    }
}

/// Subtracts the durations from `start` one at a time, stopping at the first overflow.
pub open spec fn sub_each(start: Option<Instant>, ds: Seq<Duration>) -> Option<Instant>
    decreases ds.len(),
{
    if ds.len() == 0 {
        start
    } else {
        match sub_each(start, ds.drop_last()) {
            Some(t) => t.sub_nanos(dur_nanos(ds.last())),
            None => None,
        }
    }
}

/// A moved instant is well formed and lies exactly the distance moved away.
proof fn lemma_add_nanos_total(a: Instant, n: int)
    requires
        a.wf(),
        a.add_nanos(n).is_some(),
    ensures
        a.add_nanos(n).unwrap().wf(),
        a.add_nanos(n).unwrap().total() == a.total() + n,
{
    unix::lemma_total_timespec_of(a.total() + n);
}

/// Moving an instant by no time at all keeps it.
proof fn lemma_add_zero(a: Instant)
    requires
        a.wf(),
    ensures
        a.add_nanos(0) == Some(a),
{
    unix::lemma_timespec_of_total(a.reading().t);
}

/// Two moves in the same direction are one move by their sum, and an overflow in
/// the first is an overflow of the whole.
proof fn lemma_add_nanos_compose(a: Instant, x: int, y: int)
    requires
        a.wf(),
        (x >= 0 && y >= 0) || (x <= 0 && y <= 0),
    ensures
        match a.add_nanos(x) {
            Some(b) => b.add_nanos(y) == a.add_nanos(x + y),
            None => a.add_nanos(x + y).is_none(),
        },
{
    unix::lemma_timespec_of_total(a.reading().t);
    if a.add_nanos(x).is_some() {
        lemma_add_nanos_total(a, x);
    }
}

/// Moving an instant forward by a duration and back by the same duration gives the
/// instant back, wherever the forward move is representable.
pub proof fn lemma_add_then_sub(a: Instant, d: Duration)
    requires
        a.wf(),
        a.add_nanos(dur_nanos(d)).is_some(),
    ensures
        a.add_nanos(dur_nanos(d)).unwrap().sub_nanos(dur_nanos(d)) == Some(a),
{
    lemma_add_nanos_total(a, dur_nanos(d));
    lemma_add_zero(a);
}

/// Moving an instant back by a duration and forward by the same duration gives the
/// instant back, wherever the backward move is representable.
pub proof fn lemma_sub_then_add(a: Instant, d: Duration)
    requires
        a.wf(),
        a.sub_nanos(dur_nanos(d)).is_some(),
    ensures
        a.sub_nanos(dur_nanos(d)).unwrap().add_nanos(dur_nanos(d)) == Some(a),
{
    lemma_add_nanos_total(a, -dur_nanos(d));
    lemma_add_zero(a);
}

/// The time from an instant to the instant a duration later is that duration, to
/// the nanosecond; the time from an instant to itself is zero.
pub proof fn lemma_add_then_since(a: Instant, d: Duration)
    requires
        a.wf(),
        a.add_nanos(dur_nanos(d)).is_some(),
    ensures
        a.add_nanos(dur_nanos(d)).unwrap().nanos_since(a) == dur_nanos(d),
        a.nanos_since(a) == 0,
{
    lemma_add_nanos_total(a, dur_nanos(d));
}

/// The time since a later instant saturates at zero: an instant moved back by a
/// duration lies no later than the original, and strictly earlier when the
/// duration is not zero.
pub proof fn lemma_sub_then_since(a: Instant, d: Duration)
    requires
        a.wf(),
        a.sub_nanos(dur_nanos(d)).is_some(),
    ensures
        a.sub_nanos(dur_nanos(d)).unwrap().nanos_since(a) == 0,
        dur_nanos(d) > 0 ==> a.sub_nanos(dur_nanos(d)).unwrap().total() < a.total(),
{
    lemma_add_nanos_total(a, -dur_nanos(d));
}

/// Adding a duration of `u64::MAX` seconds twice to any instant overflows.
pub proof fn lemma_max_secs_twice_overflows(a: Instant, d: Duration)
    requires
        a.wf(),
        secs_of(d) == u64::MAX,
    ensures
        match a.add_nanos(dur_nanos(d)) {
            Some(b) => b.add_nanos(dur_nanos(d)).is_none(),
            None => true,
        },
{
    unix::lemma_timespec_of_total(a.reading().t);
    if a.add_nanos(dur_nanos(d)).is_some() {
        lemma_add_nanos_total(a, dur_nanos(d));
    }
}

/// Durations have no negative length, nor has their total.
proof fn lemma_sum_nanos_nonneg(ds: Seq<Duration>)
    ensures
        sum_nanos(ds) >= 0,
    decreases ds.len(),
{
    if ds.len() > 0 {
        lemma_sum_nanos_nonneg(ds.drop_last());
    }
}

/// Adding a list of durations at once gives what adding them one at a time gives,
/// overflow included.
pub proof fn lemma_add_sum_is_add_each(a: Instant, ds: Seq<Duration>)
    requires
        a.wf(),
    ensures
        a.add_nanos(sum_nanos(ds)) == add_each(Some(a), ds),
    decreases ds.len(),
{
    if ds.len() == 0 {
        lemma_add_zero(a);
    } else {
        lemma_add_sum_is_add_each(a, ds.drop_last());
        lemma_sum_nanos_nonneg(ds.drop_last());
        lemma_add_nanos_compose(a, sum_nanos(ds.drop_last()), dur_nanos(ds.last()));
    }
}

/// Subtracting a list of durations at once gives what subtracting them one at a
/// time gives, overflow included.
pub proof fn lemma_sub_sum_is_sub_each(a: Instant, ds: Seq<Duration>)
    requires
        a.wf(),
    ensures
        a.sub_nanos(sum_nanos(ds)) == sub_each(Some(a), ds),
    decreases ds.len(),
{
    if ds.len() == 0 {
        lemma_add_zero(a);
    } else {
        lemma_sub_sum_is_sub_each(a, ds.drop_last());
        lemma_sum_nanos_nonneg(ds.drop_last());
        lemma_add_nanos_compose(a, -sum_nanos(ds.drop_last()), -dur_nanos(ds.last()));
    }
}

} // verus!
