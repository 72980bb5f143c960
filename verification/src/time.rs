//! Points in time, as the records hold them.

use vstd::prelude::*;

verus! {

/// The earliest timestamp that has a calendar date: the first second of the
/// year -262143, which is the timestamp of `chrono`'s `DateTime::MIN_UTC`.
pub const MIN_TIMESTAMP: i64 = -8_334_601_228_800;

/// The latest timestamp that has a calendar date: the last second of the
/// year 262142, which is the timestamp of `chrono`'s `DateTime::MAX_UTC`.
pub const MAX_TIMESTAMP: i64 = 8_210_266_876_799;

/// A point in time in UTC: the whole seconds since 1970-01-01T00:00:00Z, and
/// the nanoseconds that have passed since that second began.
#[derive(Clone, Copy, Debug, PartialEq, Eq, Structural)]
pub struct DateTime {
    pub secs: i64,
    pub nanos: u32,
}

impl DateTime {
    /// Whether the value names a point in time that has a calendar date.
    /// A nanosecond count of a second or more stands for a leap second.
    pub open spec fn valid(self) -> bool {
        &&& MIN_TIMESTAMP <= self.secs <= MAX_TIMESTAMP
        &&& self.nanos < 2_000_000_000
    }

    /// The same point in time with the part below one second dropped.
    pub open spec fn whole_seconds(self) -> DateTime {
        DateTime { secs: self.secs, nanos: 0 }
    }

    /// The whole seconds since 1970-01-01T00:00:00Z.
    pub fn timestamp(&self) -> (secs: i64)
        ensures
            secs == self.secs,
    {
        self.secs
    }
}

/// The point in time at a whole second, where it has a calendar date.
pub open spec fn at_second(secs: i64) -> Option<DateTime> {
    if MIN_TIMESTAMP <= secs <= MAX_TIMESTAMP {
        Some(DateTime { secs, nanos: 0 })
    } else {
        None
    }
}

/// Reads the clock through `chrono::Utc::now`, and takes the reading apart
/// with `timestamp` and `timestamp_subsec_nanos`. Trusted: every reading is a
/// valid point in time. Nothing is promised about which one, nor that a later
/// reading is not earlier. `chrono` gives up where the system clock stands
/// before 1970.
#[verifier::external_body]
pub(crate) fn now() -> (t: DateTime)
    ensures
        t.valid(),
{
    let t = chrono::Utc::now();
    DateTime { secs: t.timestamp(), nanos: t.timestamp_subsec_nanos() }
}

/// Asks `chrono::DateTime::from_timestamp` for the point in time at a whole
/// second. Trusted: `chrono` accepts exactly the seconds that fall in a year
/// from -262143 to 262142, which are those from `MIN_TIMESTAMP` to
/// `MAX_TIMESTAMP`, and what it builds has that timestamp and no nanoseconds.
#[verifier::external_body]
pub(crate) fn from_timestamp(secs: i64) -> (t: Option<DateTime>)
    ensures
        t == at_second(secs),
{
    match chrono::DateTime::from_timestamp(secs, 0) {
        Some(t) => Some(DateTime { secs: t.timestamp(), nanos: t.timestamp_subsec_nanos() }),
        None => None,
    }
}

} // verus!
