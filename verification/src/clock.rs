//! Points in time, held as seconds and nanoseconds since the Unix epoch (UTC).
use vstd::prelude::*;

verus! {

/// A point in time, UTC.
#[derive(Clone, Copy, Debug, PartialEq, Eq, Structural)]
pub struct Timestamp {
    /// Whole seconds since 1970-01-01 00:00:00 UTC.
    pub seconds: i64,
    /// Nanoseconds past `seconds`.
    pub nanos: u32,
}

/// `chrono::Utc::now`, as seconds and nanoseconds since the epoch. The
/// reading depends on the clock; only that the nanoseconds stay below two
/// seconds (more than one only during a leap second) is stated.
#[verifier::external_body]
fn read_utc_now() -> (r: Timestamp)
    ensures
        r.nanos < 2_000_000_000,
{
    let now = chrono::Utc::now();
    Timestamp { seconds: now.timestamp(), nanos: now.timestamp_subsec_nanos() }
}

/// The time of day in UTC, in whole seconds since midnight.
pub open spec fn seconds_of_day_spec(seconds: int) -> int {
    let r = seconds % 86400;
    r
}

impl Timestamp {
    /// The current time.
    pub fn now() -> (r: Timestamp)
        ensures
            r.nanos < 2_000_000_000,
    {
        read_utc_now()
    }

    /// A point in time from seconds and nanoseconds since the epoch.
    pub fn from_parts(seconds: i64, nanos: u32) -> (r: Timestamp)
        ensures
            r.seconds == seconds,
            r.nanos == nanos,
    {
        Timestamp { seconds, nanos }
    }

    /// The time of day in UTC, in whole seconds since midnight.
    pub fn seconds_of_day(&self) -> (r: u32)
        ensures
            r == seconds_of_day_spec(self.seconds as int),
            r < 86400,
    {
        let r = self.seconds % 86400;
        let r = if r < 0 { r + 86400 } else { r };
        assert(r == seconds_of_day_spec(self.seconds as int));
        r as u32
    }
}

} // verus!
