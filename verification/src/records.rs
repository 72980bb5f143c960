//! The records of the tracker and the errors its operations report.

use vstd::prelude::*;
use crate::time::DateTime;
use crate::datetime_util::{all_dated, dates_of, deserialize, serialize, timestamps_of};

verus! {

/// The collection of the store that holds the habits, one value per id.
pub const HABITS_KEY: &'static str = "habits";

/// The collection of the store that holds the check lists, one value per id.
pub const HABITS_CHECK_KEY: &'static str = "habit_checks";

/// Why an operation did not go through.
#[derive(Clone, Copy, Debug, PartialEq, Eq, Structural)]
pub enum HabitError {
    /// The store did not answer, or did not answer what was asked.
    StoreUnavailable,
    /// No record is kept under the id.
    NotFound,
    /// A value in the store is not a record.
    CorruptRecord,
    /// The input was turned down before the store was asked anything.
    ValidationError,
}

/// The body of an answer that has nothing to report but success.
#[derive(Debug, PartialEq, Eq)]
pub struct DefaultResponse {
    pub status: String,
}

impl Default for DefaultResponse {
    fn default() -> (response: Self)
        ensures
            response.status@ == "ok"@,
    {
        DefaultResponse { status: "ok".to_string() }
    }
}

/// A habit as it is kept in the store.
#[derive(Debug, PartialEq, Eq)]
pub struct Habit {
    pub id: String,
    pub name: String,
    pub description: String,
    pub create_dt: DateTime,
    pub frequency: String,
}

/// What a `Habit` holds.
pub struct HabitView {
    pub id: Seq<char>,
    pub name: Seq<char>,
    pub description: Seq<char>,
    pub create_dt: DateTime,
    pub frequency: Seq<char>,
}

impl View for Habit {
    type V = HabitView;

    open spec fn view(&self) -> HabitView {
        HabitView {
            id: self.id@,
            name: self.name@,
            description: self.description@,
            create_dt: self.create_dt,
            frequency: self.frequency@,
        }
    }
}

impl DeepView for Habit {
    type V = HabitView;

    open spec fn deep_view(&self) -> HabitView {
        self@
    }
}

impl Clone for Habit {
    fn clone(&self) -> (copy: Self)
        ensures
            copy == *self,
    {
        Habit {
            id: self.id.clone(),
            name: self.name.clone(),
            description: self.description.clone(),
            create_dt: self.create_dt,
            frequency: self.frequency.clone(),
        }
    }
}

impl HabitView {
    /// A habit has a name, and was made at a point in time that has a date.
    pub open spec fn valid(self) -> bool {
        &&& self.name.len() > 0
        &&& self.create_dt.valid()
    }
}

/// The fields that a caller gives for a habit to be made.
#[derive(Debug, PartialEq, Eq)]
pub struct NewHabit {
    pub name: String,
    pub description: String,
    pub frequency: String,
}

/// What a `NewHabit` holds.
pub struct NewHabitView {
    pub name: Seq<char>,
    pub description: Seq<char>,
    pub frequency: Seq<char>,
}

impl View for NewHabit {
    type V = NewHabitView;

    open spec fn view(&self) -> NewHabitView {
        NewHabitView {
            name: self.name@,
            description: self.description@,
            frequency: self.frequency@,
        }
    }
}

/// The checks made against one habit, oldest first.
#[derive(Debug, PartialEq, Eq)]
pub struct HabitCheckList {
    pub id: String,
    pub check_dt: Vec<DateTime>,
}

/// What a `HabitCheckList` holds.
pub struct HabitCheckListView {
    pub id: Seq<char>,
    pub check_dt: Seq<DateTime>,
}

impl View for HabitCheckList {
    type V = HabitCheckListView;

    open spec fn view(&self) -> HabitCheckListView {
        HabitCheckListView { id: self.id@, check_dt: self.check_dt@ }
    }
}

/// A check list as the store keeps it: each check as a timestamp in whole
/// seconds.
#[derive(Debug, PartialEq, Eq)]
pub struct CheckRecord {
    pub id: String,
    pub check_dt: Vec<i64>,
}

/// What a `CheckRecord` holds.
pub struct CheckRecordView {
    pub id: Seq<char>,
    pub check_dt: Seq<i64>,
}

impl View for CheckRecord {
    type V = CheckRecordView;

    open spec fn view(&self) -> CheckRecordView {
        CheckRecordView { id: self.id@, check_dt: self.check_dt@ }
    }
}

impl HabitCheckListView {
    /// The list without any check.
    pub open spec fn empty(id: Seq<char>) -> HabitCheckListView {
        HabitCheckListView { id, check_dt: Seq::empty() }
    }

    /// Whether every check of the list was made at a valid point in time.
    pub open spec fn valid(self) -> bool {
        forall|i: int| 0 <= i < self.check_dt.len() ==> (#[trigger] self.check_dt[i]).valid()
    }

    /// The list with one more check at its end.
    pub open spec fn checked(self, at: DateTime) -> HabitCheckListView {
        HabitCheckListView { id: self.id, check_dt: self.check_dt.push(at) }
    }

    /// The list as the store keeps it.
    pub open spec fn record(self) -> CheckRecordView {
        CheckRecordView { id: self.id, check_dt: timestamps_of(self.check_dt) }
    }
}

impl Clone for CheckRecord {
    fn clone(&self) -> (copy: Self)
        ensures
            copy@ == self@,
    {
        CheckRecord { id: self.id.clone(), check_dt: self.check_dt.clone() }
    }
}

impl CheckRecordView {
    /// Whether every timestamp of the record has a calendar date.
    pub open spec fn dated(self) -> bool {
        all_dated(self.check_dt)
    }

    /// The list that the record stands for.
    pub open spec fn list(self) -> HabitCheckListView {
        HabitCheckListView { id: self.id, check_dt: dates_of(self.check_dt) }
    }
}

impl HabitCheckList {
    /// A list without any check.
    pub fn new(id: String) -> (list: HabitCheckList)
        ensures
            list@ == HabitCheckListView::empty(id@),
            list@.valid(),
    {
        HabitCheckList { id, check_dt: Vec::new() }
    }

    /// Puts one more check at the end of the list.
    pub fn push(&mut self, at: DateTime)
        ensures
            final(self)@ == old(self)@.checked(at),
            old(self)@.valid() && at.valid() ==> final(self)@.valid(),
    {
        self.check_dt.push(at);
        proof {
            if old(self)@.valid() && at.valid() {
                assert forall|i: int| 0 <= i < self@.check_dt.len() implies (
                #[trigger] self@.check_dt[i]).valid() by {
                    if i < old(self)@.check_dt.len() {
                        assert(self@.check_dt[i] == old(self)@.check_dt[i]);
                    }
                }
            }
        }
    }

    /// The list as the store keeps it.
    pub fn to_record(&self) -> (record: CheckRecord)
        ensures
            record@ == self@.record(),
    {
        CheckRecord { id: self.id.clone(), check_dt: serialize(&self.check_dt) }
    }

    /// The list that a record of the store stands for. A record with a
    /// timestamp that has no calendar date stands for none.
    pub fn from_record(record: CheckRecord) -> (list: Result<HabitCheckList, HabitError>)
        ensures
            match list {
                Ok(list) => record@.dated() && list@ == record@.list() && list@.valid(),
                Err(e) => !record@.dated() && e == HabitError::CorruptRecord,
            },
    {
        let CheckRecord { id, check_dt } = record;
        match deserialize(check_dt) {
            Ok(check_dt) => Ok(HabitCheckList { id, check_dt }),
            Err(e) => Err(e),
        }
    }
}

} // verus!
