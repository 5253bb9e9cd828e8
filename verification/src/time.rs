//! Points in time and spans of time, held as plain nanosecond counts.

use vstd::prelude::*;

verus! {

/// Nanoseconds in one millisecond.
pub const NANOS_PER_MILLI: u128 = 1_000_000;

/// Nanoseconds in one second.
pub const NANOS_PER_SEC: u128 = 1_000_000_000;

/// A span of time with nanosecond resolution.
#[derive(Clone, Copy, Debug, PartialEq, Eq, Structural)]
pub struct Duration {
    pub nanos: u128,
}

/// A point in time: the nanoseconds that have passed since the Unix epoch.
#[derive(Clone, Copy, Debug, PartialEq, Eq, Structural)]
pub struct Timestamp {
    pub nanos: u128,
}

/// The number of whole milliseconds in a span, cut to 64 bits.
pub open spec fn millis_u64(d: Duration) -> u64 {
    ((d.nanos / NANOS_PER_MILLI) % 0x1_0000_0000_0000_0000) as u64
}

/// The span from `earlier` to `later`, or the empty span where `later` lies
/// before `earlier`.
pub open spec fn span_between(later: Timestamp, earlier: Timestamp) -> Duration {
    if later.nanos >= earlier.nanos {
        Duration { nanos: (later.nanos - earlier.nanos) as u128 }
    } else {
        Duration { nanos: 0 }
    }
}

impl Duration {
    /// The empty span.
    pub fn zero() -> (d: Duration)
        ensures
            d.nanos == 0,
    {
        Duration { nanos: 0 }
    }

    /// A span of `millis` milliseconds.
    pub fn from_millis(millis: u64) -> (d: Duration)
        ensures
            d.nanos == millis * NANOS_PER_MILLI,
    {
        let wide: u128 = millis as u128;
        Duration { nanos: wide * NANOS_PER_MILLI }
    }

    /// A span of `secs` seconds.
    pub fn from_secs(secs: u64) -> (d: Duration)
        ensures
            d.nanos == secs * NANOS_PER_SEC,
    {
        let wide: u128 = secs as u128;
        Duration { nanos: wide * NANOS_PER_SEC }
    }

    /// The whole milliseconds in this span.
    pub fn as_millis(&self) -> (m: u128)
        ensures
            m == self.nanos / NANOS_PER_MILLI,
    {
        self.nanos / NANOS_PER_MILLI
    }

    /// The whole milliseconds in this span, cut to 64 bits.
    pub fn as_millis_u64(&self) -> (m: u64)
        ensures
            m == millis_u64(*self),
    {
        let wide: u128 = self.nanos / NANOS_PER_MILLI;
        (wide % 0x1_0000_0000_0000_0000) as u64
    }

    /// The whole seconds in this span.
    pub fn as_secs(&self) -> (s: u128)
        ensures
            s == self.nanos / NANOS_PER_SEC,
    {
        self.nanos / NANOS_PER_SEC
    }

    /// Whether this span is strictly longer than `other`.
    pub fn longer_than(&self, other: &Duration) -> (r: bool)
        ensures
            r == (self.nanos > other.nanos),
    {
        self.nanos > other.nanos
    }
}

impl Default for Duration {
    fn default() -> (d: Duration)
        ensures
            d.nanos == 0,
    {
        Duration { nanos: 0 }
    }
}

/// Reads the system clock through `std::time::SystemTime::now` and gives the
/// reading as nanoseconds since the Unix epoch (zero for a clock set before
/// it).  Nothing is claimed about the value: two readings may differ in
/// either direction.
#[verifier::external_body]
pub(crate) fn read_system_clock() -> (nanos: u128) {
    match std::time::SystemTime::now().duration_since(std::time::UNIX_EPOCH) {
        Ok(since_epoch) => since_epoch.as_nanos(),
        Err(_) => 0,
    }
}

impl Timestamp {
    /// The current reading of the system clock.
    pub fn now() -> (t: Timestamp) {
        Timestamp { nanos: read_system_clock() }
    }

    /// The point in time `nanos` nanoseconds after the Unix epoch.
    pub fn from_nanos(nanos: u128) -> (t: Timestamp)
        ensures
            t.nanos == nanos,
    {
        Timestamp { nanos }
    }

    /// The point in time `millis` milliseconds after the Unix epoch.
    pub fn from_millis(millis: u64) -> (t: Timestamp)
        ensures
            t.nanos == millis * NANOS_PER_MILLI,
    {
        let wide: u128 = millis as u128;
        Timestamp { nanos: wide * NANOS_PER_MILLI }
    }

    /// The time that passed from `earlier` to this point; empty where
    /// `earlier` is the later of the two.
    pub fn duration_since(&self, earlier: &Timestamp) -> (d: Duration)
        ensures
            d == span_between(*self, *earlier),
    {
        if self.nanos >= earlier.nanos {
            Duration { nanos: self.nanos - earlier.nanos }
        } else {
            Duration { nanos: 0 }
        }
    }

    /// The time that has passed since this point, read off the system clock.
    pub fn elapsed(&self) -> (d: Duration)
        ensures
            exists|now: Timestamp| d == span_between(now, *self),
    {
        let now = Timestamp::now();
        let d = now.duration_since(self);
        assert(d == span_between(now, *self));
        d
    }
}

} // verus!
