//! A clock that stands still, for machines on which time cannot be read: every
//! moment is the same moment, and every span of time is empty.
use vstd::prelude::*;

verus! {

/// A moment on the clock.
#[derive(Clone, Copy, Debug)]
pub struct Instant;

impl Default for Instant {
    fn default() -> (r: Self)
        ensures
            r == Instant,
    {
        Instant
    }
}

impl Instant {
    /// The one moment that there is.
    pub fn now() -> (r: Self)
        ensures
            r == Instant,
    {
        Self::default()
    }

    /// The time since this moment: none.
    pub fn elapsed(&self) -> (r: Duration)
        ensures
            r == Duration::ZERO,
    {
        Duration::default()
    }

    /// The time between two moments: none.
    pub fn duration_since(&self, _time: Instant) -> (r: Duration)
        ensures
            r == Duration::ZERO,
    {
        Duration::default()
    }
}

/// A span of time, which has no length.
#[derive(Clone, Debug, PartialEq, Eq, PartialOrd, Ord)]
pub struct Duration;

impl Default for Duration {
    fn default() -> (r: Self)
        ensures
            r == Duration::ZERO,
    {
        Duration
    }
}

impl Duration {
    /// The empty span.
    pub const ZERO: Duration = Duration;

    /// The longest span, which is empty as well.
    pub const MAX: Duration = Duration;

    pub fn new(_secs: u64, _nanos: u32) -> (r: Duration)
        ensures
            r == Duration::ZERO,
    {
        Duration
    }

    pub fn from_nanos(_nanos: u64) -> (r: Duration)
        ensures
            r == Duration::ZERO,
    {
        Self::new(0, 0)
    }

    pub fn from_micros(_micros: u64) -> (r: Duration)
        ensures
            r == Duration::ZERO,
    {
        Self::new(0, 0)
    }

    pub fn from_millis(_millis: u64) -> (r: Duration)
        ensures
            r == Duration::ZERO,
    {
        Self::new(0, 0)
    }

    pub fn from_secs(_secs: u64) -> (r: Duration)
        ensures
            r == Duration::ZERO,
    {
        Self::new(0, 0)
    }

    /// The whole seconds in this span: none.
    pub fn as_secs(&self) -> (r: u64)
        ensures
            r == 0,
    {
        0
    }

    /// The nanoseconds in this span: none.
    pub fn as_nanos(&self) -> (r: u128)
        ensures
            r == 0,
    {
        0
    }

    /// The nanoseconds beyond the whole seconds in this span: none.
    pub fn subsec_nanos(&self) -> (r: u32)
        ensures
            r == 0,
    {
        0
    }
}

/// Why one moment could not be measured from another. It does not come up.
#[derive(Clone, Copy, Debug, PartialEq, Eq)]
pub struct SystemTimeError;

/// A moment in the calendar.
pub struct SystemTime;

/// The beginning of the calendar.
pub const UNIX_EPOCH: SystemTime = SystemTime;

impl Default for SystemTime {
    fn default() -> (r: Self)
        ensures
            r == UNIX_EPOCH,
    {
        SystemTime
    }
}

impl SystemTime {
    /// The beginning of the calendar, at which it stands.
    pub fn now() -> (r: SystemTime)
        ensures
            r == UNIX_EPOCH,
    {
        Self::default()
    }

    /// The time between two moments: none.
    pub fn duration_since(&self, _time: SystemTime) -> (r: Result<Duration, SystemTimeError>)
        ensures
            r == Ok::<Duration, SystemTimeError>(Duration::ZERO),
    {
        Ok(Duration::default())
    }
}

/// Time does not pass: any two moments are the same, so are any two spans of time,
/// and the calendar stands at its beginning.
pub proof fn law_time_stands_still(
    a: Instant,
    b: Instant,
    c: Duration,
    d: Duration,
    e: SystemTime,
)
    ensures
        a == b,
        c == d,
        Duration::MAX == Duration::ZERO,
        e == UNIX_EPOCH,
{
}

} // verus!
