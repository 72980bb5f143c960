//! The store as the operations see it, and what an operation comes to when
//! its requests are carried out against such a store.
//!
//! Nothing here runs: this is the yardstick against which the operations of
//! `habits` are measured. A store that keeps what it is given and gives back
//! what it keeps is assumed; one that fails to answer is covered by the
//! contract of `advance` alone.

use vstd::prelude::*;
use crate::exchange::{ProgressView, ReplyView, RequestView};
use crate::habits::step;
use crate::records::{CheckRecordView, HabitView};
use crate::time::DateTime;

verus! {

/// The two collections of the store, each from id to the value kept under it.
/// `None` stands for a value that is not a record.
pub struct Store {
    pub habits: Map<Seq<char>, Option<HabitView>>,
    pub checks: Map<Seq<char>, Option<CheckRecordView>>,
}

impl Store {
    /// The store that holds nothing.
    pub open spec fn empty() -> Store {
        Store { habits: Map::empty(), checks: Map::empty() }
    }

    /// Whether `values` are the values of the habit collection in the order
    /// `ids`, which names each id of the collection once.
    pub open spec fn listed_by(self, ids: Seq<Seq<char>>, values: Seq<Option<HabitView>>) -> bool {
        &&& ids.no_duplicates()
        &&& ids.to_set() == self.habits.dom()
        &&& values == Seq::new(ids.len(), |i: int| self.habits[ids[i]])
    }

    /// Whether `values` are the values of the habit collection, each id's
    /// value once, in some order.
    pub open spec fn lists(self, values: Seq<Option<HabitView>>) -> bool {
        exists|ids: Seq<Seq<char>>| self.listed_by(ids, values)
    }

    /// The values of the habit collection in the order in which the store
    /// gives them. The store picks the order.
    pub open spec fn habit_values(self) -> Seq<Option<HabitView>> {
        choose|values: Seq<Option<HabitView>>| self.lists(values)
    }

    /// What the store answers to a request.
    pub open spec fn reply(self, request: RequestView) -> ReplyView {
        match request {
            RequestView::ReadHabits => ReplyView::Habits(self.habit_values()),
            RequestView::ReadHabit { id } => if !self.habits.contains_key(id) {
                ReplyView::Absent
            } else {
                match self.habits[id] {
                    Some(habit) => ReplyView::Habit(habit),
                    None => ReplyView::Corrupt,
                }
            },
            RequestView::ReadChecks { id } => if !self.checks.contains_key(id) {
                ReplyView::Absent
            } else {
                match self.checks[id] {
                    Some(record) => ReplyView::Checks(record),
                    None => ReplyView::Corrupt,
                }
            },
            RequestView::WriteHabit { .. } => ReplyView::Done,
            RequestView::DeleteHabit { .. } => ReplyView::Done,
            RequestView::WriteChecks { .. } => ReplyView::Done,
        }
    }

    /// What the store holds once it has carried a request out.
    pub open spec fn after(self, request: RequestView) -> Store {
        match request {
            RequestView::WriteHabit { habit } => Store {
                habits: self.habits.insert(habit.id, Some(habit)),
                checks: self.checks,
            },
            RequestView::DeleteHabit { id } => Store {
                habits: self.habits.remove(id),
                checks: self.checks,
            },
            RequestView::WriteChecks { id, record } => Store {
                habits: self.habits,
                checks: self.checks.insert(id, Some(record)),
            },
            _ => self,
        }
    }
}

/// Where the store and an operation stand after at most `exchanges` requests
/// of the operation were carried out, each reply handed to `step`. The clock
/// reads `now` throughout.
pub open spec fn drive(store: Store, progress: ProgressView, now: DateTime, exchanges: nat) -> (
    Store,
    ProgressView,
)
    decreases exchanges,
{
    match progress {
        ProgressView::Ask { task, request } => if exchanges == 0 {
            (store, progress)
        } else {
            drive(
                store.after(request),
                step(task, store.reply(request), now),
                now,
                (exchanges - 1) as nat,
            )
        },
        ProgressView::Finished { .. } => (store, progress),
    }
}

/// The store and the operation once the operation has run its course: no
/// operation asks the store for more than two things.
pub open spec fn run(store: Store, start: ProgressView, now: DateTime) -> (Store, ProgressView) {
    drive(store, start, now, 2)
}

/// Every operation is over after two exchanges with the store.
pub proof fn lemma_run_finishes(store: Store, start: ProgressView, now: DateTime)
    ensures
        run(store, start, now).1 is Finished,
{
    reveal_with_fuel(drive, 3);
}

} // verus!
