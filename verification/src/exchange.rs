//! What passes between an operation and the store: the requests that an
//! operation makes, the replies that come back, and where the operation
//! stands in between.

use vstd::prelude::*;
use crate::records::{
    CheckRecord, CheckRecordView, DefaultResponse, Habit, HabitCheckList, HabitCheckListView,
    HabitError, HabitView, HABITS_CHECK_KEY, HABITS_KEY,
};

verus! {

/// One thing to ask of the store.
#[derive(Debug, PartialEq, Eq)]
pub enum Request {
    /// Every value of the habit collection.
    ReadHabits,
    /// The habit kept under `id`.
    ReadHabit { id: String },
    /// Keep `habit` under its own id, in place of what was there.
    WriteHabit { habit: Habit },
    /// Keep no habit under `id`.
    DeleteHabit { id: String },
    /// The check list kept under `id`.
    ReadChecks { id: String },
    /// Keep `record` under `id`, in place of what was there.
    WriteChecks { id: String, record: CheckRecord },
}

/// What a `Request` holds.
pub enum RequestView {
    ReadHabits,
    ReadHabit { id: Seq<char> },
    WriteHabit { habit: HabitView },
    DeleteHabit { id: Seq<char> },
    ReadChecks { id: Seq<char> },
    WriteChecks { id: Seq<char>, record: CheckRecordView },
}

impl View for Request {
    type V = RequestView;

    open spec fn view(&self) -> RequestView {
        match self {
            Request::ReadHabits => RequestView::ReadHabits,
            Request::ReadHabit { id } => RequestView::ReadHabit { id: id@ },
            Request::WriteHabit { habit } => RequestView::WriteHabit { habit: habit@ },
            Request::DeleteHabit { id } => RequestView::DeleteHabit { id: id@ },
            Request::ReadChecks { id } => RequestView::ReadChecks { id: id@ },
            Request::WriteChecks { id, record } => RequestView::WriteChecks {
                id: id@,
                record: record@,
            },
        }
    }
}

impl RequestView {
    /// The collection that the request is about.
    pub open spec fn collection(self) -> Seq<char> {
        match self {
            RequestView::ReadHabits => HABITS_KEY@,
            RequestView::ReadHabit { .. } => HABITS_KEY@,
            RequestView::WriteHabit { .. } => HABITS_KEY@,
            RequestView::DeleteHabit { .. } => HABITS_KEY@,
            RequestView::ReadChecks { .. } => HABITS_CHECK_KEY@,
            RequestView::WriteChecks { .. } => HABITS_CHECK_KEY@,
        }
    }
}

impl Request {
    /// The name of the collection that the request is about.
    pub fn collection(&self) -> (name: &'static str)
        ensures
            name@ == self@.collection(),
    {
        match self {
            Request::ReadHabits => HABITS_KEY,
            Request::ReadHabit { .. } => HABITS_KEY,
            Request::WriteHabit { .. } => HABITS_KEY,
            Request::DeleteHabit { .. } => HABITS_KEY,
            Request::ReadChecks { .. } => HABITS_CHECK_KEY,
            Request::WriteChecks { .. } => HABITS_CHECK_KEY,
        }
    }
}

/// What came back from the store.
#[derive(Debug, PartialEq, Eq)]
pub enum Reply {
    /// The store did not answer.
    Unavailable,
    /// The write or the removal was carried out.
    Done,
    /// Nothing is kept where the request looked.
    Absent,
    /// What is kept where the request looked is not a record.
    Corrupt,
    /// The habit that was read.
    Habit(Habit),
    /// The values of the habit collection, in the order in which the store
    /// gave them; `None` stands for a value that is not a habit.
    Habits(Vec<Option<Habit>>),
    /// The check list that was read.
    Checks(CheckRecord),
}

/// What a `Reply` holds.
pub enum ReplyView {
    Unavailable,
    Done,
    Absent,
    Corrupt,
    Habit(HabitView),
    Habits(Seq<Option<HabitView>>),
    Checks(CheckRecordView),
}

impl View for Reply {
    type V = ReplyView;

    open spec fn view(&self) -> ReplyView {
        match self {
            Reply::Unavailable => ReplyView::Unavailable,
            Reply::Done => ReplyView::Done,
            Reply::Absent => ReplyView::Absent,
            Reply::Corrupt => ReplyView::Corrupt,
            Reply::Habit(habit) => ReplyView::Habit(habit@),
            Reply::Habits(values) => ReplyView::Habits(values.deep_view()),
            Reply::Checks(record) => ReplyView::Checks(record@),
        }
    }
}

/// What an operation gives when it goes through.
#[derive(Debug, PartialEq, Eq)]
pub enum Response {
    /// Every habit of the store.
    Habits(Vec<Habit>),
    /// The habit that was made.
    Created(Habit),
    /// The habit that was asked for.
    Habit(Habit),
    /// The habit is gone, or was never there.
    Deleted(DefaultResponse),
    /// The checks of a habit.
    Checks(HabitCheckList),
}

/// What a `Response` holds.
pub enum ResponseView {
    Habits(Seq<HabitView>),
    Created(HabitView),
    Habit(HabitView),
    Deleted { status: Seq<char> },
    Checks(HabitCheckListView),
}

impl View for Response {
    type V = ResponseView;

    open spec fn view(&self) -> ResponseView {
        match self {
            Response::Habits(habits) => ResponseView::Habits(habits.deep_view()),
            Response::Created(habit) => ResponseView::Created(habit@),
            Response::Habit(habit) => ResponseView::Habit(habit@),
            Response::Deleted(response) => ResponseView::Deleted { status: response.status@ },
            Response::Checks(checks) => ResponseView::Checks(checks@),
        }
    }
}

/// An operation that waits for the store: what it will do with the reply.
#[derive(Debug, PartialEq, Eq)]
pub enum Task {
    /// `get_habits`, waiting for the values of the collection.
    ListHabits,
    /// `create_habit`, waiting for the habit to be written.
    CreateHabit { habit: Habit },
    /// `create_habit`, waiting for the habit's empty check list to be written.
    CreateChecks { habit: Habit },
    /// `get_habit`, waiting for the habit.
    GetHabit,
    /// `delete_habit`, waiting for the removal.
    DeleteHabit,
    /// `check_habit`, waiting for the check list as it stands.
    CheckHabit { id: String },
    /// `check_habit`, waiting for the longer list to be written.
    WriteCheck { checks: HabitCheckList },
    /// `list_habit_checks`, waiting for the check list.
    ListChecks { id: String },
}

/// What a `Task` holds.
pub enum TaskView {
    ListHabits,
    CreateHabit { habit: HabitView },
    CreateChecks { habit: HabitView },
    GetHabit,
    DeleteHabit,
    CheckHabit { id: Seq<char> },
    WriteCheck { checks: HabitCheckListView },
    ListChecks { id: Seq<char> },
}

impl View for Task {
    type V = TaskView;

    open spec fn view(&self) -> TaskView {
        match self {
            Task::ListHabits => TaskView::ListHabits,
            Task::CreateHabit { habit } => TaskView::CreateHabit { habit: habit@ },
            Task::CreateChecks { habit } => TaskView::CreateChecks { habit: habit@ },
            Task::GetHabit => TaskView::GetHabit,
            Task::DeleteHabit => TaskView::DeleteHabit,
            Task::CheckHabit { id } => TaskView::CheckHabit { id: id@ },
            Task::WriteCheck { checks } => TaskView::WriteCheck { checks: checks@ },
            Task::ListChecks { id } => TaskView::ListChecks { id: id@ },
        }
    }
}

/// Where an operation stands: it asks the store for one more thing, or it is
/// over.
#[derive(Debug, PartialEq, Eq)]
pub enum Progress {
    /// Carry `request` out and hand the reply to `advance` with `task`.
    Ask { task: Task, request: Request },
    /// The operation is over, with this result.
    Finished { result: Result<Response, HabitError> },
}

/// What a `Progress` holds.
pub enum ProgressView {
    Ask { task: TaskView, request: RequestView },
    Finished { result: Result<ResponseView, HabitError> },
}

impl View for Progress {
    type V = ProgressView;

    open spec fn view(&self) -> ProgressView {
        match self {
            Progress::Ask { task, request } => ProgressView::Ask {
                task: task@,
                request: request@,
            },
            Progress::Finished { result } => ProgressView::Finished {
                result: match result {
                    Ok(response) => Ok(response@),
                    Err(e) => Err(*e),
                },
            },
        }
    }
}

impl ProgressView {
    /// The id of the check list that the operation reads in order to write it
    /// back with one more check, where the operation is about to do so.
    pub open spec fn rewrites(self) -> Option<Seq<char>> {
        match self {
            ProgressView::Ask { task: TaskView::CheckHabit { id }, .. } => Some(id),
            _ => None,
        }
    }
}

impl Progress {
    /// The id of the check list that the operation reads in order to write it
    /// back with one more check, where the operation is about to do so. The
    /// list must not be written by anyone else between that read and that
    /// write, or a check is lost: whoever carries the requests out lets one
    /// such operation at a time work on an id.
    pub fn rewrites(&self) -> (id: Option<&String>)
        ensures
            match id {
                Some(id) => self@.rewrites() == Some(id@),
                None => self@.rewrites() is None,
            },
    {
        match self {
            Progress::Ask { task: Task::CheckHabit { id }, .. } => Some(id),
            _ => None,
        }
    }
}

} // verus!
