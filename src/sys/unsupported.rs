//! Instants for platforms without a suspend-aware clock.
//!
//! There is no clock to read, so no instant is ever taken "now"; the arithmetic is
//! still defined so that code holding such instants stays well formed.
use crate::duration::{dur_nanos, max_dur_nanos};
use core::time::Duration;
use vstd::prelude::*;

verus! {

/// A point in time, as a duration since an arbitrary epoch.
#[derive(Copy, Clone, PartialEq, Eq, PartialOrd, Ord, Debug, Hash)]
pub struct Instant(pub Duration);

impl Instant {
    /// Nanoseconds since the epoch.
    pub open spec fn total(self) -> int {
        dur_nanos(self.0)
    }

    /// The time from `other` to `self`, or `None` where `other` is the later one.
    pub fn checked_sub_instant(&self, other: &Instant) -> (r: Option<Duration>)
        ensures
            r.is_some() <==> other.total() <= self.total(),
            r.is_some() ==> dur_nanos(r.unwrap()) == self.total() - other.total(),
    {
        self.0.checked_sub(other.0)
    }

    /// The instant `other` after this one, or `None` where it is not representable.
    pub fn checked_add_duration(&self, other: &Duration) -> (r: Option<Instant>)
        ensures
            r.is_some() <==> self.total() + dur_nanos(*other) <= max_dur_nanos(),
            r.is_some() ==> r.unwrap().total() == self.total() + dur_nanos(*other),
    {
        match self.0.checked_add(*other) {
            Some(t) => Some(Instant(t)),
            None => None,
        }
    }

    /// The instant `other` before this one, or `None` where it is not representable.
    pub fn checked_sub_duration(&self, other: &Duration) -> (r: Option<Instant>)
        ensures
            r.is_some() <==> dur_nanos(*other) <= self.total(),
            r.is_some() ==> r.unwrap().total() == self.total() - dur_nanos(*other),
    {
        match self.0.checked_sub(*other) {
            Some(t) => Some(Instant(t)),
            None => None,
        }
    }
}

} // verus!
