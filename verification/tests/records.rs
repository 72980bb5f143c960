//! The records, and how check lists are written to the store.

use habit_tracker::datetime_util::{deserialize, serialize};
use habit_tracker::records::{CheckRecord, Habit, HabitCheckList, HabitError};
use habit_tracker::time::{DateTime, MAX_TIMESTAMP, MIN_TIMESTAMP};

fn at(secs: i64, nanos: u32) -> DateTime {
    DateTime { secs, nanos }
}

#[test]
fn timestamp_is_the_whole_seconds() {
    assert_eq!(at(1_431_648_000, 999_999_999).timestamp(), 1_431_648_000);
    assert_eq!(at(-1, 5).timestamp(), -1);
}

#[test]
fn serialize_drops_what_is_below_the_second() {
    assert_eq!(serialize(&vec![]), Vec::<i64>::new());
    assert_eq!(
        serialize(&vec![at(3, 999_999_999), at(-7, 1), at(3, 0), at(1_431_648_000, 5)]),
        vec![3, -7, 3, 1_431_648_000]
    );
}

#[test]
fn deserialize_reads_whole_seconds_in_order() {
    assert_eq!(deserialize(vec![]), Ok(vec![]));
    assert_eq!(
        deserialize(vec![1_431_648_000, 0, -1, 1_431_648_000]),
        Ok(vec![at(1_431_648_000, 0), at(0, 0), at(-1, 0), at(1_431_648_000, 0)])
    );
}

#[test]
fn deserialize_accepts_exactly_the_timestamps_with_a_date() {
    assert_eq!(MIN_TIMESTAMP, -8_334_601_228_800);
    assert_eq!(MAX_TIMESTAMP, 8_210_266_876_799);
    assert_eq!(deserialize(vec![MIN_TIMESTAMP]), Ok(vec![at(MIN_TIMESTAMP, 0)]));
    assert_eq!(deserialize(vec![MAX_TIMESTAMP]), Ok(vec![at(MAX_TIMESTAMP, 0)]));
    assert_eq!(deserialize(vec![MIN_TIMESTAMP - 1]), Err(HabitError::CorruptRecord));
    assert_eq!(deserialize(vec![MAX_TIMESTAMP + 1]), Err(HabitError::CorruptRecord));
    assert_eq!(deserialize(vec![i64::MIN]), Err(HabitError::CorruptRecord));
    assert_eq!(deserialize(vec![i64::MAX]), Err(HabitError::CorruptRecord));
    assert_eq!(deserialize(vec![1, 2, MAX_TIMESTAMP + 1, 3]), Err(HabitError::CorruptRecord));
}

#[test]
fn the_bounds_are_those_of_the_calendar() {
    assert_eq!(chrono::DateTime::<chrono::Utc>::MIN_UTC.timestamp(), MIN_TIMESTAMP);
    assert_eq!(chrono::DateTime::<chrono::Utc>::MAX_UTC.timestamp(), MAX_TIMESTAMP);
    for secs in [MIN_TIMESTAMP, -1, 0, 1_431_648_000, MAX_TIMESTAMP] {
        let date = chrono::DateTime::from_timestamp(secs, 0).expect("in range");
        assert_eq!(date.timestamp(), secs);
        assert_eq!(deserialize(vec![secs]), Ok(vec![at(secs, 0)]));
    }
    for secs in [MIN_TIMESTAMP - 1, MAX_TIMESTAMP + 1] {
        assert!(chrono::DateTime::from_timestamp(secs, 0).is_none());
    }
}

#[test]
fn a_list_read_back_is_the_list_written_to_the_second() {
    let list = HabitCheckList { id: "h1".to_string(), check_dt: vec![at(5, 700), at(9, 0)] };
    let record = list.to_record();
    assert_eq!(record, CheckRecord { id: "h1".to_string(), check_dt: vec![5, 9] });
    assert_eq!(
        HabitCheckList::from_record(record),
        Ok(HabitCheckList { id: "h1".to_string(), check_dt: vec![at(5, 0), at(9, 0)] })
    );
}

#[test]
fn a_record_with_a_timestamp_without_a_date_is_no_list() {
    let record = CheckRecord { id: "h1".to_string(), check_dt: vec![5, MIN_TIMESTAMP - 1] };
    assert_eq!(HabitCheckList::from_record(record), Err(HabitError::CorruptRecord));
}

#[test]
fn new_list_is_empty_and_push_appends() {
    let mut list = HabitCheckList::new("h1".to_string());
    assert_eq!(list, HabitCheckList { id: "h1".to_string(), check_dt: vec![] });
    list.push(at(2, 1));
    list.push(at(1, 0));
    list.push(at(2, 1));
    assert_eq!(list.check_dt, vec![at(2, 1), at(1, 0), at(2, 1)]);
    assert_eq!(list.id, "h1");
}

#[test]
fn clones_hold_what_was_cloned() {
    let habit = Habit {
        id: "h1".to_string(),
        name: "Read".to_string(),
        description: "daily read".to_string(),
        create_dt: at(1_700_000_000, 42),
        frequency: "daily".to_string(),
    };
    assert_eq!(habit.clone(), habit);
    let record = CheckRecord { id: "h1".to_string(), check_dt: vec![3, 1, 2] };
    assert_eq!(record.clone(), record);
}
