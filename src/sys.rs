//! The clock readers: one representation of an instant per kind of platform clock.
//!
//! [`unix`] reads the boot-time clock as seconds and nanoseconds and is the one that
//! [`crate::Instant`] is built on. [`windows`] converts performance-counter ticks to
//! nanoseconds and tolerates one tick of jitter when subtracting. [`unsupported`]
//! has no clock, only arithmetic.
pub mod unix;
pub mod unsupported;
pub mod windows;
