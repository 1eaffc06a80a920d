//! The part of [`crate::time`] that measures: moments and spans of a clock that
//! stands still.
use vstd::prelude::*;

verus! {

/// A moment on the clock.
pub struct Instant;

impl Default for Instant {
    fn default() -> (r: Self)
        ensures
            r == Instant,
    {
        Instant
    }
}

impl Instant {
    /// The one moment that there is.
    pub fn now() -> (r: Self)
        ensures
            r == Instant,
    {
        Self::default()
    }

    /// The time since this moment: none.
    pub fn elapsed(&self) -> (r: Duration)
        ensures
            r == Duration::ZERO,
    {
        Duration::default()
    }
}

/// A span of time, which has no length.
#[derive(Debug, PartialEq, Eq)]
pub struct Duration;

impl Default for Duration {
    fn default() -> (r: Self)
        ensures
            r == Duration::ZERO,
    {
        Duration
    }
}

impl Duration {
    /// The empty span.
    pub const ZERO: Duration = Duration;

    /// The longest span, which is empty as well.
    pub const MAX: Duration = Duration;

    pub fn new(_secs: u64, _nanos: u32) -> (r: Duration)
        ensures
            r == Duration::ZERO,
    {
        Self::default()
    }

    pub fn from_nanos(_nanos: u64) -> (r: Duration)
        ensures
            r == Duration::ZERO,
    {
        Self::default()
    }

    pub fn from_micros(_micros: u64) -> (r: Duration)
        ensures
            r == Duration::ZERO,
    {
        Self::default()
    }

    pub fn from_millis(_millis: u64) -> (r: Duration)
        ensures
            r == Duration::ZERO,
    {
        Self::default()
    }

    pub fn from_secs(_secs: u64) -> (r: Duration)
        ensures
            r == Duration::ZERO,
    {
        Self::default()
    }
}

} // verus!
