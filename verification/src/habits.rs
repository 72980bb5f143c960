//! The operations on habits and their checks, as exchanges with the store.
//!
//! The store is somewhere else, so no operation here touches it. An operation
//! begins by naming the first thing to ask of the store; `advance` takes the
//! store's reply and either names the next thing to ask or gives the
//! operation's result. Whoever holds the connection carries the requests out,
//! one at a time, each from a fresh round-trip.

use vstd::prelude::*;
use crate::exchange::{
    Progress, ProgressView, Reply, ReplyView, Request, RequestView, Response, ResponseView, Task,
    TaskView,
};
use crate::ident::{is_habit_id, new_id};
use crate::records::{
    DefaultResponse, Habit, HabitCheckList, HabitCheckListView, HabitError, HabitView, NewHabit,
    NewHabitView,
};
use crate::time::{now, DateTime};

verus! {

/// The operation is over and has failed.
pub open spec fn failed(e: HabitError) -> ProgressView {
    ProgressView::Finished { result: Err(e) }
}

/// The operation is over and has gone through.
pub open spec fn succeeded(response: ResponseView) -> ProgressView {
    ProgressView::Finished { result: Ok(response) }
}

/// Whether every value of a collection is a record.
pub open spec fn all_records(values: Seq<Option<HabitView>>) -> bool {
    forall|i: int| 0 <= i < values.len() ==> (#[trigger] values[i]) is Some
}

/// The records of a collection in which every value is one, in the same order.
pub open spec fn records_of(values: Seq<Option<HabitView>>) -> Seq<HabitView> {
    Seq::new(values.len(), |i: int| values[i]->0)
}

/// The habit that `create_habit` makes of its input, an identifier and a
/// reading of the clock.
pub open spec fn habit_of(new: NewHabitView, id: Seq<char>, now: DateTime) -> HabitView {
    HabitView {
        id,
        name: new.name,
        description: new.description,
        create_dt: now,
        frequency: new.frequency,
    }
}

/// How `get_habits` begins.
pub open spec fn listing() -> ProgressView {
    ProgressView::Ask { task: TaskView::ListHabits, request: RequestView::ReadHabits }
}

/// How `create_habit` begins, given the identifier drawn and the clock's
/// reading. A habit without a name is turned down and the store is not asked.
pub open spec fn creating(new: NewHabitView, id: Seq<char>, now: DateTime) -> ProgressView {
    if new.name.len() == 0 {
        failed(HabitError::ValidationError)
    } else {
        ProgressView::Ask {
            task: TaskView::CreateHabit { habit: habit_of(new, id, now) },
            request: RequestView::WriteHabit { habit: habit_of(new, id, now) },
        }
    }
}

/// How `get_habit` begins.
pub open spec fn fetching(id: Seq<char>) -> ProgressView {
    ProgressView::Ask { task: TaskView::GetHabit, request: RequestView::ReadHabit { id } }
}

/// How `delete_habit` begins.
pub open spec fn deleting(id: Seq<char>) -> ProgressView {
    ProgressView::Ask { task: TaskView::DeleteHabit, request: RequestView::DeleteHabit { id } }
}

/// How `check_habit` begins.
pub open spec fn checking(id: Seq<char>) -> ProgressView {
    ProgressView::Ask {
        task: TaskView::CheckHabit { id },
        request: RequestView::ReadChecks { id },
    }
}

/// How `list_habit_checks` begins.
pub open spec fn listing_checks(id: Seq<char>) -> ProgressView {
    ProgressView::Ask { task: TaskView::ListChecks { id }, request: RequestView::ReadChecks { id } }
}

/// `get_habits` after the store's reply. A collection that is not there holds
/// no habit. One value that is not a habit fails the whole listing.
pub open spec fn listed(reply: ReplyView) -> ProgressView {
    match reply {
        ReplyView::Absent => succeeded(ResponseView::Habits(Seq::empty())),
        ReplyView::Habits(values) => if all_records(values) {
            succeeded(ResponseView::Habits(records_of(values)))
        } else {
            failed(HabitError::CorruptRecord)
        },
        ReplyView::Corrupt => failed(HabitError::CorruptRecord),
        _ => failed(HabitError::StoreUnavailable),
    }
}

/// `create_habit` after the habit was to be written: once it is, its empty
/// check list is written under the same id.
pub open spec fn habit_stored(habit: HabitView, reply: ReplyView) -> ProgressView {
    match reply {
        ReplyView::Done => ProgressView::Ask {
            task: TaskView::CreateChecks { habit },
            request: RequestView::WriteChecks {
                id: habit.id,
                record: HabitCheckListView::empty(habit.id).record(),
            },
        },
        _ => failed(HabitError::StoreUnavailable),
    }
}

/// `create_habit` after the check list was to be written.
pub open spec fn checks_stored(habit: HabitView, reply: ReplyView) -> ProgressView {
    match reply {
        ReplyView::Done => succeeded(ResponseView::Created(habit)),
        _ => failed(HabitError::StoreUnavailable),
    }
}

/// `get_habit` after the store's reply.
pub open spec fn fetched(reply: ReplyView) -> ProgressView {
    match reply {
        ReplyView::Habit(habit) => succeeded(ResponseView::Habit(habit)),
        ReplyView::Absent => failed(HabitError::NotFound),
        ReplyView::Corrupt => failed(HabitError::CorruptRecord),
        _ => failed(HabitError::StoreUnavailable),
    }
}

/// `delete_habit` after the store's reply. That there was nothing to remove
/// is success too.
pub open spec fn removed(reply: ReplyView) -> ProgressView {
    match reply {
        ReplyView::Done => succeeded(ResponseView::Deleted { status: "ok"@ }),
        ReplyView::Absent => succeeded(ResponseView::Deleted { status: "ok"@ }),
        _ => failed(HabitError::StoreUnavailable),
    }
}

/// The check list that a reply to a read of the list under `id` stands for:
/// the list that was read, or the empty one where none is kept. A record with
/// a timestamp that has no calendar date is as corrupt as a value that is no
/// record.
pub open spec fn checks_read(id: Seq<char>, reply: ReplyView) -> Result<
    HabitCheckListView,
    HabitError,
> {
    match reply {
        ReplyView::Checks(record) => if record.dated() {
            Ok(record.list())
        } else {
            Err(HabitError::CorruptRecord)
        },
        ReplyView::Absent => Ok(HabitCheckListView::empty(id)),
        ReplyView::Corrupt => Err(HabitError::CorruptRecord),
        _ => Err(HabitError::StoreUnavailable),
    }
}

/// `check_habit` after the list was read, at the clock's reading `now`: the
/// list with `now` at its end is written back under `id`.
pub open spec fn check_added(id: Seq<char>, reply: ReplyView, now: DateTime) -> ProgressView {
    match checks_read(id, reply) {
        Ok(list) => ProgressView::Ask {
            task: TaskView::WriteCheck { checks: list.checked(now) },
            request: RequestView::WriteChecks { id, record: list.checked(now).record() },
        },
        Err(e) => failed(e),
    }
}

/// `check_habit` after the longer list was to be written.
pub open spec fn check_stored(checks: HabitCheckListView, reply: ReplyView) -> ProgressView {
    match reply {
        ReplyView::Done => succeeded(ResponseView::Checks(checks)),
        _ => failed(HabitError::StoreUnavailable),
    }
}

/// `list_habit_checks` after the store's reply.
pub open spec fn checks_listed(id: Seq<char>, reply: ReplyView) -> ProgressView {
    match checks_read(id, reply) {
        Ok(list) => succeeded(ResponseView::Checks(list)),
        Err(e) => failed(e),
    }
}

/// What a waiting operation does with the store's reply, where `now` is what
/// the clock reads when the reply arrives. Only `check_habit` looks at the
/// clock, and only once.
pub open spec fn step(task: TaskView, reply: ReplyView, now: DateTime) -> ProgressView {
    match task {
        TaskView::ListHabits => listed(reply),
        TaskView::CreateHabit { habit } => habit_stored(habit, reply),
        TaskView::CreateChecks { habit } => checks_stored(habit, reply),
        TaskView::GetHabit => fetched(reply),
        TaskView::DeleteHabit => removed(reply),
        TaskView::CheckHabit { id } => check_added(id, reply, now),
        TaskView::WriteCheck { checks } => check_stored(checks, reply),
        TaskView::ListChecks { id } => checks_listed(id, reply),
    }
}

/// The status with which the service answers over HTTP when an operation
/// ends with `result`: 201 where a habit was made, 200 for every other
/// success, 404 where nothing was found, 400 for input that was turned down,
/// and 500 where the store failed or holds what is no record.
pub open spec fn status_of(result: Result<ResponseView, HabitError>) -> u16 {
    match result {
        Ok(ResponseView::Created(_)) => 201,
        Ok(_) => 200,
        Err(HabitError::NotFound) => 404,
        Err(HabitError::ValidationError) => 400,
        Err(HabitError::StoreUnavailable) => 500,
        Err(HabitError::CorruptRecord) => 500,
    }
}

/// The status with which the service answers over HTTP when an operation ends
/// with `result`.
pub fn status_code(result: &Result<Response, HabitError>) -> (status: u16)
    ensures
        status == status_of(
            match result {
                Ok(response) => Ok(response@),
                Err(e) => Err(*e),
            },
        ),
{
    match result {
        Ok(Response::Created(_)) => 201,
        Ok(_) => 200,
        Err(HabitError::NotFound) => 404,
        Err(HabitError::ValidationError) => 400,
        Err(HabitError::StoreUnavailable) => 500,
        Err(HabitError::CorruptRecord) => 500,
    }
}

/// Begins to list every habit.
pub fn get_habits() -> (next: Progress)
    ensures
        next@ == listing(),
{
    Progress::Ask { task: Task::ListHabits, request: Request::ReadHabits }
}

/// Begins to make a habit of the given fields, under the given identifier and
/// made at the given time.
pub fn create_habit_with(habit: NewHabit, id: String, create_dt: DateTime) -> (next: Progress)
    ensures
        next@ == creating(habit@, id@, create_dt),
{
    if habit.name.as_str().is_empty() {
        return Progress::Finished { result: Err(HabitError::ValidationError) };
    }
    let NewHabit { name, description, frequency } = habit;
    let habit = Habit { id, name, description, create_dt, frequency };
    Progress::Ask {
        task: Task::CreateHabit { habit: habit.clone() },
        request: Request::WriteHabit { habit },
    }
}

/// Begins to make a habit of the given fields: draws a fresh identifier for
/// it and stamps it with the clock's reading. A habit without a name is turned
/// down before either is done.
pub fn create_habit(habit: NewHabit) -> (next: Progress)
    ensures
        habit@.name.len() == 0 ==> next@ == failed(HabitError::ValidationError),
        habit@.name.len() > 0 ==> exists|id: Seq<char>, now: DateTime|
            is_habit_id(id) && now.valid() && next@ == #[trigger] creating(habit@, id, now),
{
    if habit.name.as_str().is_empty() {
        return Progress::Finished { result: Err(HabitError::ValidationError) };
    }
    let id = new_id();
    let create_dt = now();
    create_habit_with(habit, id, create_dt)
}

/// Begins to read the habit kept under `id`.
pub fn get_habit(id: String) -> (next: Progress)
    ensures
        next@ == fetching(id@),
{
    Progress::Ask { task: Task::GetHabit, request: Request::ReadHabit { id } }
}

/// Begins to remove the habit kept under `id`. Its check list stays.
pub fn delete_habit(id: String) -> (next: Progress)
    ensures
        next@ == deleting(id@),
{
    Progress::Ask { task: Task::DeleteHabit, request: Request::DeleteHabit { id } }
}

/// Begins to record a check against the habit kept under `id`.
pub fn check_habit(id: String) -> (next: Progress)
    ensures
        next@ == checking(id@),
{
    Progress::Ask {
        task: Task::CheckHabit { id: id.clone() },
        request: Request::ReadChecks { id },
    }
}

/// Begins to read the checks of the habit kept under `id`.
pub fn list_habit_checks(id: String) -> (next: Progress)
    ensures
        next@ == listing_checks(id@),
{
    Progress::Ask {
        task: Task::ListChecks { id: id.clone() },
        request: Request::ReadChecks { id },
    }
}

/// The habits of a collection's values, in the same order, where every value
/// is one.
fn collect_habits(values: Vec<Option<Habit>>) -> (habits: Result<Vec<Habit>, HabitError>)
    ensures
        match habits {
            Ok(habits) => all_records(values.deep_view()) && habits.deep_view() == records_of(
                values.deep_view(),
            ),
            Err(e) => !all_records(values.deep_view()) && e == HabitError::CorruptRecord,
        },
{
    let ghost items = values@;
    let ghost all = values.deep_view();
    let mut habits: Vec<Habit> = Vec::new();
    for value in it: values.into_iter()
        invariant
            it.seq() == items,
            all == values.deep_view(),
            all.len() == items.len(),
            forall|i: int| 0 <= i < items.len() ==> #[trigger] all[i] == items[i].deep_view(),
            habits.len() == it.index(),
            forall|i: int| 0 <= i < it.index() ==> items[i] == Some(#[trigger] habits[i]),
    {
        match value {
            Some(habit) => habits.push(habit),
            None => {
                assert(all[it.index()] is None);
                return Err(HabitError::CorruptRecord);
            },
        }
    }
    assert(all_records(all)) by {
        assert forall|i: int| 0 <= i < all.len() implies (#[trigger] all[i]) is Some by {
            assert(items[i] == Some(habits[i]));
        }
    }
    Ok(habits)
}

/// `get_habits` after the store's reply.
fn list_habits(reply: Reply) -> (next: Progress)
    ensures
        next@ == listed(reply@),
{
    match reply {
        Reply::Absent => {
            let habits: Vec<Habit> = Vec::new();
            assert(habits.deep_view() =~= Seq::<HabitView>::empty());
            Progress::Finished { result: Ok(Response::Habits(habits)) }
        },
        Reply::Habits(values) => match collect_habits(values) {
            Ok(habits) => Progress::Finished { result: Ok(Response::Habits(habits)) },
            Err(e) => Progress::Finished { result: Err(e) },
        },
        Reply::Corrupt => Progress::Finished { result: Err(HabitError::CorruptRecord) },
        _ => Progress::Finished { result: Err(HabitError::StoreUnavailable) },
    }
}

/// `create_habit` after the habit was to be written.
fn store_checks(habit: Habit, reply: Reply) -> (next: Progress)
    ensures
        next@ == habit_stored(habit@, reply@),
{
    match reply {
        Reply::Done => {
            let id = habit.id.clone();
            let record = HabitCheckList::new(habit.id.clone()).to_record();
            Progress::Ask {
                task: Task::CreateChecks { habit },
                request: Request::WriteChecks { id, record },
            }
        },
        _ => Progress::Finished { result: Err(HabitError::StoreUnavailable) },
    }
}

/// `create_habit` after the check list was to be written.
fn finish_create(habit: Habit, reply: Reply) -> (next: Progress)
    ensures
        next@ == checks_stored(habit@, reply@),
{
    match reply {
        Reply::Done => Progress::Finished { result: Ok(Response::Created(habit)) },
        _ => Progress::Finished { result: Err(HabitError::StoreUnavailable) },
    }
}

/// `get_habit` after the store's reply.
fn finish_get(reply: Reply) -> (next: Progress)
    ensures
        next@ == fetched(reply@),
{
    match reply {
        Reply::Habit(habit) => Progress::Finished { result: Ok(Response::Habit(habit)) },
        Reply::Absent => Progress::Finished { result: Err(HabitError::NotFound) },
        Reply::Corrupt => Progress::Finished { result: Err(HabitError::CorruptRecord) },
        _ => Progress::Finished { result: Err(HabitError::StoreUnavailable) },
    }
}

/// `delete_habit` after the store's reply.
fn finish_delete(reply: Reply) -> (next: Progress)
    ensures
        next@ == removed(reply@),
{
    match reply {
        Reply::Done | Reply::Absent => Progress::Finished {
            result: Ok(Response::Deleted(DefaultResponse::default())),
        },
        _ => Progress::Finished { result: Err(HabitError::StoreUnavailable) },
    }
}

/// The check list that a reply to a read of the list under `id` stands for.
fn read_checks(id: String, reply: Reply) -> (list: Result<HabitCheckList, HabitError>)
    ensures
        match list {
            Ok(list) => checks_read(id@, reply@) == Ok::<HabitCheckListView, HabitError>(list@),
            Err(e) => checks_read(id@, reply@) == Err::<HabitCheckListView, HabitError>(e),
        },
{
    match reply {
        Reply::Checks(record) => HabitCheckList::from_record(record),
        Reply::Absent => Ok(HabitCheckList::new(id)),
        Reply::Corrupt => Err(HabitError::CorruptRecord),
        _ => Err(HabitError::StoreUnavailable),
    }
}

/// Asks for `list`, with `now` at its end, to be written back under `id`.
fn store_checked(id: String, list: HabitCheckList, now: DateTime) -> (next: Progress)
    ensures
        next@ == (ProgressView::Ask {
            task: TaskView::WriteCheck { checks: list@.checked(now) },
            request: RequestView::WriteChecks { id: id@, record: list@.checked(now).record() },
        }),
{
    let mut checks = list;
    checks.push(now);
    let record = checks.to_record();
    Progress::Ask { task: Task::WriteCheck { checks }, request: Request::WriteChecks { id, record } }
}

/// `check_habit` after the list was read, where the clock reads `now`: puts
/// `now` at the end of the list and asks for it to be written back under `id`.
pub fn add_check(id: String, reply: Reply, now: DateTime) -> (next: Progress)
    ensures
        next@ == check_added(id@, reply@, now),
{
    match read_checks(id.clone(), reply) {
        Ok(list) => store_checked(id, list, now),
        Err(e) => Progress::Finished { result: Err(e) },
    }
}

/// `check_habit` after the longer list was to be written.
fn finish_check(checks: HabitCheckList, reply: Reply) -> (next: Progress)
    ensures
        next@ == check_stored(checks@, reply@),
{
    match reply {
        Reply::Done => Progress::Finished { result: Ok(Response::Checks(checks)) },
        _ => Progress::Finished { result: Err(HabitError::StoreUnavailable) },
    }
}

/// `list_habit_checks` after the store's reply.
fn finish_list_checks(id: String, reply: Reply) -> (next: Progress)
    ensures
        next@ == checks_listed(id@, reply@),
{
    match read_checks(id, reply) {
        Ok(list) => Progress::Finished { result: Ok(Response::Checks(list)) },
        Err(e) => Progress::Finished { result: Err(e) },
    }
}

/// Takes a waiting operation one step further with the store's reply. A reply
/// that does not answer what the operation asked counts as no answer. Where
/// `check_habit` has read its list, the clock is read for the new check: what
/// comes of it is what `add_check` gives for that reading.
pub fn advance(task: Task, reply: Reply) -> (next: Progress)
    ensures
        exists|now: DateTime| now.valid() && next@ == #[trigger] step(task@, reply@, now),
        !(task@ is CheckHabit) ==> forall|now: DateTime|
            next@ == #[trigger] step(task@, reply@, now),
{
    let ghost read = reply@;
    let ghost mut clock = DateTime { secs: 0, nanos: 0 };
    let next = match task {
        Task::ListHabits => list_habits(reply),
        Task::CreateHabit { habit } => store_checks(habit, reply),
        Task::CreateChecks { habit } => finish_create(habit, reply),
        Task::GetHabit => finish_get(reply),
        Task::DeleteHabit => finish_delete(reply),
        Task::CheckHabit { id } => match read_checks(id.clone(), reply) {
            Ok(list) => {
                let at = now();
                proof {
                    clock = at;
                }
                store_checked(id, list, at)
            },
            Err(e) => Progress::Finished { result: Err(e) },
        },
        Task::WriteCheck { checks } => finish_check(checks, reply),
        Task::ListChecks { id } => finish_list_checks(id, reply),
    };
    assert(clock.valid() && next@ == step(task@, read, clock));
    next
}

} // verus!
