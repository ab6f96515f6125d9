//! Temporal quantification that takes into account the time a system spent suspended.
//!
//! An [`Instant`] is a reading of a monotonic clock that keeps advancing while the
//! host is suspended. Instants can be compared, subtracted to give a [`Duration`],
//! and moved by a [`Duration`] with checked arithmetic; the operators `+` and `-`
//! with a duration demand that the result be representable, and `-` between two
//! instants saturates at zero.
//!
//! Lengths of durations and positions of instants are stated in nanoseconds
//! ([`duration::dur_nanos`], [`Instant::total`]), so that every contract is exact to
//! the nanosecond.
pub use core::time::Duration;

pub mod duration;
pub mod sys_common;
pub mod sys;
pub mod time;

pub use time::Instant;
