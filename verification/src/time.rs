//! Points in UTC time, as whole seconds since the Unix epoch and nanoseconds
//! within the second, over the range of dates `chrono` supports.

use vstd::prelude::*;

verus! {

/// The last second `chrono` can represent: 262142-12-31T23:59:59 UTC.
pub const MAX_UTC_SECS: i64 = 8_210_266_876_799;

/// The first second `chrono` can represent: -262143-01-01T00:00:00 UTC.
pub const MIN_UTC_SECS: i64 = -8_334_601_228_800;

/// Nanoseconds in one second.
pub const NANOS_PER_SEC: u32 = 1_000_000_000;

/// Seconds in one day.
pub const SECS_PER_DAY: i64 = 86_400;

/// A point in UTC time.
#[derive(Clone, Copy, Debug, PartialEq, Eq, Structural)]
pub struct Timestamp {
    pub secs: i64,
    pub nanos: u32,
}

/// `a` is strictly later than `b`.
pub open spec fn later(a: Timestamp, b: Timestamp) -> bool {
    a.secs > b.secs || (a.secs == b.secs && a.nanos > b.nanos)
}

impl Timestamp {
    /// Whether `self` is strictly later than `other`.
    pub fn is_after(&self, other: &Timestamp) -> (b: bool)
        ensures
            b == later(*self, *other),
    {
        self.secs > other.secs || (self.secs == other.secs && self.nanos > other.nanos)
    }

    /// The point `days` whole days after `self`.
    pub fn plus_days(&self, days: u32) -> (t: Timestamp)
        requires
            self.secs + days * SECS_PER_DAY <= MAX_UTC_SECS,
        ensures
            t.secs == self.secs + days * SECS_PER_DAY,
            t.nanos == self.nanos,
    {
        let d: i64 = days as i64;
        Timestamp { secs: self.secs + d * SECS_PER_DAY, nanos: self.nanos }
    }
}

/// `chrono::Utc::now()`: the current time as the system clock gives it.
/// Nothing is stated of which instant it is; what holds of every reading
/// is that it lies between the Unix epoch and the last second `chrono`
/// represents, with fewer than a second of nanoseconds (`Utc::now` builds
/// it from the time since the epoch and panics on a clock set before the
/// epoch).
#[verifier::external_body]
pub(crate) fn utc_now() -> (t: Timestamp)
    ensures
        0 <= t.secs <= MAX_UTC_SECS,
        t.nanos < NANOS_PER_SEC,
{
    let now = chrono::Utc::now();
    Timestamp { secs: now.timestamp(), nanos: now.timestamp_subsec_nanos() }
}

#[verifier::external_type_specification]
#[verifier::external_body]
pub struct ExInstant(std::time::Instant);

/// `std::time::Instant::now()`: a reading of the monotonic clock, opaque.
#[verifier::external_body]
pub(crate) fn instant_now() -> std::time::Instant {
    std::time::Instant::now()
}

/// `Instant::elapsed` of `origin`, in whole nanoseconds (`u64::MAX` when
/// the count does not fit).  The reading depends on the clock; nothing is
/// stated of it.
#[verifier::external_body]
pub(crate) fn nanos_since(origin: &std::time::Instant) -> u64 {
    u64::try_from(origin.elapsed().as_nanos()).unwrap_or(u64::MAX)
}

} // verus!
