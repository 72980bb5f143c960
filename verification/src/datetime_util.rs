//! How the checks of a list are written to the store: as timestamps in whole
//! seconds.

use vstd::prelude::*;
use crate::records::HabitError;
use crate::time::{from_timestamp, DateTime, MAX_TIMESTAMP, MIN_TIMESTAMP};

verus! {

/// The timestamps of a sequence of points in time, in whole seconds.
pub open spec fn timestamps_of(dates: Seq<DateTime>) -> Seq<i64> {
    Seq::new(dates.len(), |i: int| dates[i].secs)
}

/// Whether every timestamp has a calendar date.
pub open spec fn all_dated(timestamps: Seq<i64>) -> bool {
    forall|i: int|
        0 <= i < timestamps.len() ==> MIN_TIMESTAMP <= #[trigger] timestamps[i] <= MAX_TIMESTAMP
}

/// The points in time at the given whole seconds.
pub open spec fn dates_of(timestamps: Seq<i64>) -> Seq<DateTime> {
    Seq::new(timestamps.len(), |i: int| DateTime { secs: timestamps[i], nanos: 0 })
}

/// Writes each point in time as its timestamp in whole seconds. What lies
/// below the second is dropped.
pub fn serialize(dates: &Vec<DateTime>) -> (timestamps: Vec<i64>)
    ensures
        timestamps@ == timestamps_of(dates@),
{
    let mut timestamps: Vec<i64> = Vec::new();
    let mut i: usize = 0;
    while i < dates.len()
        invariant
            i <= dates.len(),
            timestamps@ == timestamps_of(dates@.take(i as int)),
        decreases dates.len() - i,
    {
        timestamps.push(dates[i].timestamp());
        i += 1;
    }
    timestamps
}

/// Reads timestamps in whole seconds back as points in time, in the same order.
/// One timestamp without a calendar date makes the whole sequence unreadable.
pub fn deserialize(timestamps: Vec<i64>) -> (dates: Result<Vec<DateTime>, HabitError>)
    ensures
        match dates {
            Ok(dates) => all_dated(timestamps@) && dates@ == dates_of(timestamps@),
            Err(e) => !all_dated(timestamps@) && e == HabitError::CorruptRecord,
        },
{
    let mut dates: Vec<DateTime> = Vec::new();
    let mut i: usize = 0;
    while i < timestamps.len()
        invariant
            i <= timestamps.len(),
            all_dated(timestamps@.take(i as int)),
            dates@ == dates_of(timestamps@.take(i as int)),
        decreases timestamps.len() - i,
    {
        match from_timestamp(timestamps[i]) {
            Some(date) => dates.push(date),
            None => {
                return Err(HabitError::CorruptRecord);
            },
        }
        i += 1;
    }
    assert(timestamps@.take(i as int) == timestamps@);
    Ok(dates)
}

} // verus!
