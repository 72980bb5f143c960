//! What holds of the operations when they run against a store that keeps what
//! it is given.

use vstd::prelude::*;
use crate::datetime_util::{dates_of, timestamps_of};
use crate::exchange::{ProgressView, ReplyView, RequestView, ResponseView};
use crate::habits::{
    all_records, check_added, checking, checks_read, creating, deleting, failed, fetching,
    habit_of, listed, listing, listing_checks, records_of, succeeded,
};
use crate::records::{HabitCheckListView, HabitError, HabitView, NewHabitView};
use crate::store::{drive, run, Store};
use crate::time::{DateTime, MAX_TIMESTAMP, MIN_TIMESTAMP};

verus! {

/// The checks that the store holds for `id`, as `list_habit_checks` reads them.
pub open spec fn checks_under(store: Store, id: Seq<char>) -> Result<
    HabitCheckListView,
    HabitError,
> {
    checks_read(id, store.reply(RequestView::ReadChecks { id }))
}

/// Whether no point in time of the sequence lies before an earlier one.
pub open spec fn ascending(dates: Seq<DateTime>) -> bool {
    forall|i: int, j: int|
        0 <= i <= j < dates.len() ==> (#[trigger] dates[i]).secs < (#[trigger] dates[j]).secs || (
        dates[i].secs == dates[j].secs && dates[i].nanos <= dates[j].nanos)
}

/// The points in time of a sequence, each cut down to its whole second.
pub open spec fn whole_seconds(dates: Seq<DateTime>) -> Seq<DateTime> {
    Seq::new(dates.len(), |i: int| dates[i].whole_seconds())
}

/// The store after `check_habit` has run against `id` once for each reading
/// of the clock, one run after the other.
pub open spec fn check_each(store: Store, id: Seq<char>, clock: Seq<DateTime>) -> Store
    decreases clock.len(),
{
    if clock.len() == 0 {
        store
    } else {
        run(check_each(store, id, clock.drop_last()), checking(id), clock.last()).0
    }
}

/// The habit that `create_habit` asks the store to keep is valid, and is kept
/// under the identifier drawn.
pub proof fn lemma_created_habit_is_valid(new: NewHabitView, id: Seq<char>, now: DateTime)
    requires
        new.name.len() > 0,
        now.valid(),
    ensures
        creating(new, id, now) matches ProgressView::Ask {
            request: RequestView::WriteHabit { habit },
            ..
        } && habit.valid() && habit.id == id,
{
}

/// A habit that was made is read back as it was made. `create_habit` with a
/// name gives the habit with the input's fields, the identifier drawn and the
/// clock's reading, and leaves it in the store together with an empty check
/// list under the same identifier, whatever was kept there before; nothing
/// else in the store changes. `get_habit` on that identifier then gives the
/// same habit.
pub proof fn lemma_create_then_get(
    store: Store,
    new: NewHabitView,
    id: Seq<char>,
    now: DateTime,
    later: DateTime,
)
    requires
        new.name.len() > 0,
    ensures
        ({
            let habit = habit_of(new, id, now);
            let (held, created) = run(store, creating(new, id, now), now);
            &&& created == succeeded(ResponseView::Created(habit))
            &&& held.habits == store.habits.insert(id, Some(habit))
            &&& held.checks == store.checks.insert(
                id,
                Some(HabitCheckListView::empty(id).record()),
            )
            &&& run(held, fetching(id), later) == (held, succeeded(ResponseView::Habit(habit)))
            &&& checks_under(held, id) == Ok::<HabitCheckListView, HabitError>(
                HabitCheckListView::empty(id),
            )
        }),
{
    reveal_with_fuel(drive, 3);
    assert(dates_of(timestamps_of(Seq::<DateTime>::empty())) =~= Seq::<DateTime>::empty());
}

/// The three operations that only read leave the store as it was.
pub proof fn lemma_reads_change_nothing(store: Store, id: Seq<char>, now: DateTime)
    ensures
        run(store, listing(), now).0 == store,
        run(store, fetching(id), now).0 == store,
        run(store, listing_checks(id), now).0 == store,
{
    reveal_with_fuel(drive, 3);
}

/// A store with finitely many habits can list them.
pub proof fn lemma_store_lists(store: Store)
    requires
        store.habits.dom().finite(),
    ensures
        store.lists(store.habit_values()),
{
    let ids = lemma_ids_in_order(store.habits.dom());
    let values = Seq::new(ids.len(), |i: int| store.habits[ids[i]]);
    assert(store.listed_by(ids, values));
    assert(store.lists(values));
}

/// The members of a finite set can be put in a row, each once.
proof fn lemma_ids_in_order(ids: Set<Seq<char>>) -> (row: Seq<Seq<char>>)
    requires
        ids.finite(),
    ensures
        row.no_duplicates(),
        row.to_set() == ids,
    decreases ids.len(),
{
    if ids.len() == 0 {
        Seq::empty()
    } else {
        let id = ids.choose();
        let rest = lemma_ids_in_order(ids.remove(id));
        let row = rest.push(id);
        assert forall|other: Seq<char>| ids.contains(other) implies row.to_set().contains(
            other,
        ) by {
            if other == id {
                assert(row[rest.len() as int] == other);
            } else {
                let at = choose|i: int| 0 <= i < rest.len() && rest[i] == other;
                assert(row[at] == other);
            }
        }
        assert(row.to_set() =~= ids);
        row
    }
}

/// A store without habits lists none, and that is no error: whether it says
/// that the collection is not there or gives an empty listing.
pub proof fn lemma_empty_store_lists_nothing(values: Seq<Option<HabitView>>, now: DateTime)
    requires
        Store::empty().lists(values),
    ensures
        values.len() == 0,
        listed(ReplyView::Habits(values)) == succeeded(ResponseView::Habits(Seq::empty())),
        listed(ReplyView::Absent) == succeeded(ResponseView::Habits(Seq::empty())),
        run(Store::empty(), listing(), now) == (
            Store::empty(),
            succeeded(ResponseView::Habits(Seq::empty())),
        ),
{
    reveal_with_fuel(drive, 3);
    lemma_empty_listing(values);
    assert(records_of(values) =~= Seq::<HabitView>::empty());
    lemma_empty_listing(Store::empty().habit_values());
    assert(records_of(Store::empty().habit_values()) =~= Seq::<HabitView>::empty());
}

/// A listing of a store without habits is empty.
proof fn lemma_empty_listing(values: Seq<Option<HabitView>>)
    requires
        Store::empty().lists(values),
    ensures
        values.len() == 0,
{
    let ids = choose|ids: Seq<Seq<char>>| Store::empty().listed_by(ids, values);
    if ids.len() > 0 {
        assert(ids.to_set().contains(ids[0]));
    }
}

/// Where every value of the collection is a habit, `get_habits` gives each
/// habit of the store, one for each id, in the order in which the store listed
/// them.
pub proof fn lemma_listing_is_complete(store: Store, values: Seq<Option<HabitView>>)
    requires
        store.lists(values),
        forall|id: Seq<char>| store.habits.contains_key(id) ==> (#[trigger] store.habits[id]) is Some,
    ensures
        listed(ReplyView::Habits(values)) == succeeded(ResponseView::Habits(records_of(values))),
        records_of(values).len() == store.habits.dom().len(),
        forall|id: Seq<char>|
            store.habits.contains_key(id) ==> records_of(values).contains(
                (#[trigger] store.habits[id])->0,
            ),
        forall|i: int|
            0 <= i < values.len() ==> store.habits.contains_value(
                Some(#[trigger] records_of(values)[i]),
            ),
{
    let ids = choose|ids: Seq<Seq<char>>| store.listed_by(ids, values);
    ids.unique_seq_to_set();
    assert forall|i: int| 0 <= i < values.len() implies (#[trigger] values[i]) is Some
        && store.habits.contains_value(Some(records_of(values)[i])) by {
        assert(store.habits.contains_key(ids[i]));
    }
    assert forall|id: Seq<char>| store.habits.contains_key(id) implies records_of(values).contains(
        (#[trigger] store.habits[id])->0,
    ) by {
        let at = choose|i: int| 0 <= i < ids.len() && ids[i] == id;
        assert(records_of(values)[at] == store.habits[id]->0);
    }
}

/// One value that is not a habit fails every listing of the collection, in
/// whatever order the store gives it, and fails nothing else: a habit kept
/// under another id is still read.
pub proof fn lemma_corrupt_value_is_isolated(
    store: Store,
    bad: Seq<char>,
    good: Seq<char>,
    values: Seq<Option<HabitView>>,
    now: DateTime,
)
    requires
        store.habits.contains_key(bad),
        store.habits[bad] is None,
        store.habits.contains_key(good),
        store.habits[good] is Some,
        store.lists(values),
    ensures
        !all_records(values),
        listed(ReplyView::Habits(values)) == failed(HabitError::CorruptRecord),
        run(store, fetching(bad), now).1 == failed(HabitError::CorruptRecord),
        run(store, fetching(good), now) == (
            store,
            succeeded(ResponseView::Habit(store.habits[good]->0)),
        ),
{
    reveal_with_fuel(drive, 3);
    let ids = choose|ids: Seq<Seq<char>>| store.listed_by(ids, values);
    let at = choose|i: int| 0 <= i < ids.len() && ids[i] == bad;
    assert(values[at] is None);
}

/// Deleting a habit twice gives the same success both times, whether or not
/// the habit was there, and the second time changes nothing. The habit's
/// check list stays.
pub proof fn lemma_delete_twice(store: Store, id: Seq<char>, now: DateTime, later: DateTime)
    ensures
        ({
            let (held, first) = run(store, deleting(id), now);
            let (end, second) = run(held, deleting(id), later);
            &&& first == succeeded(ResponseView::Deleted { status: "ok"@ })
            &&& second == first
            &&& held.habits == store.habits.remove(id)
            &&& held.checks == store.checks
            &&& end == held
        }),
{
    reveal_with_fuel(drive, 3);
    let held = run(store, deleting(id), now).0;
    assert(held.habits.remove(id) =~= held.habits);
}

/// After a habit was deleted, `get_habit` does not find it.
pub proof fn lemma_deleted_is_not_found(store: Store, id: Seq<char>, now: DateTime, later: DateTime)
    ensures
        run(run(store, deleting(id), now).0, fetching(id), later).1 == failed(
            HabitError::NotFound,
        ),
{
    reveal_with_fuel(drive, 3);
}

/// Reading the checks of an id under which no list is kept gives the empty
/// list and leaves the store as it was.
pub proof fn lemma_absent_list_reads_empty(store: Store, id: Seq<char>, now: DateTime)
    requires
        !store.checks.contains_key(id),
    ensures
        run(store, listing_checks(id), now) == (
            store,
            succeeded(ResponseView::Checks(HabitCheckListView::empty(id))),
        ),
{
    reveal_with_fuel(drive, 3);
}

/// One run of `check_habit` puts the clock's reading at the end of the list
/// kept under `id`, or of the empty list where none is kept, and keeps the
/// longer list in the store; nothing that was in the list is lost or moved,
/// and nothing else in the store changes.
pub proof fn lemma_check_appends(store: Store, id: Seq<char>, now: DateTime)
    requires
        checks_under(store, id) is Ok,
    ensures
        ({
            let before = checks_under(store, id)->Ok_0;
            let (held, checked) = run(store, checking(id), now);
            &&& checked == succeeded(ResponseView::Checks(before.checked(now)))
            &&& held.habits == store.habits
            &&& held.checks == store.checks.insert(id, Some(before.checked(now).record()))
        }),
{
    reveal_with_fuel(drive, 3);
}

/// The first check against an id under which no list is kept gives a list of
/// one check, and that list is what is read afterwards, to the second.
pub proof fn lemma_first_check_makes_list(
    store: Store,
    id: Seq<char>,
    now: DateTime,
    later: DateTime,
)
    requires
        !store.checks.contains_key(id),
        now.valid(),
    ensures
        ({
            let (held, checked) = run(store, checking(id), now);
            &&& checked == succeeded(
                ResponseView::Checks(HabitCheckListView { id, check_dt: seq![now] }),
            )
            &&& run(held, listing_checks(id), later).1 == succeeded(
                ResponseView::Checks(
                    HabitCheckListView { id, check_dt: seq![now.whole_seconds()] },
                ),
            )
        }),
{
    reveal_with_fuel(drive, 3);
    let list = HabitCheckListView::empty(id).checked(now);
    lemma_kept_list(list);
    assert(whole_seconds(list.check_dt) =~= seq![now.whole_seconds()]);
}

/// A list of valid points in time is read back from the store as it was
/// written, each check to the second.
proof fn lemma_kept_list(list: HabitCheckListView)
    requires
        list.valid(),
    ensures
        list.record().dated(),
        list.record().list() == (HabitCheckListView {
            id: list.id,
            check_dt: whole_seconds(list.check_dt),
        }),
{
    assert forall|i: int| 0 <= i < list.check_dt.len() implies MIN_TIMESTAMP
        <= #[trigger] list.record().check_dt[i] <= MAX_TIMESTAMP by {
        assert(list.check_dt[i].valid());
    }
    assert(list.record().list().check_dt =~= whole_seconds(list.check_dt));
}

/// Checks are only ever added. After `check_habit` has run against `id` once
/// for each reading of the clock, one run after the other, the list kept under
/// `id` is the list that was kept before with one check for each reading at
/// its end, in the order of the runs, each to the second.
pub proof fn lemma_checks_accumulate(store: Store, id: Seq<char>, clock: Seq<DateTime>)
    requires
        checks_under(store, id) is Ok,
        forall|i: int| 0 <= i < clock.len() ==> (#[trigger] clock[i]).valid(),
    ensures
        ({
            let before = checks_under(store, id)->Ok_0;
            &&& check_each(store, id, clock).habits == store.habits
            &&& checks_under(check_each(store, id, clock), id) == Ok::<
                HabitCheckListView,
                HabitError,
            >(
                HabitCheckListView {
                    id: before.id,
                    check_dt: before.check_dt + whole_seconds(clock),
                },
            )
        }),
    decreases clock.len(),
{
    let before = checks_under(store, id)->Ok_0;
    if clock.len() > 0 {
        let earlier = clock.drop_last();
        let now = clock.last();
        lemma_checks_accumulate(store, id, earlier);
        let held = check_each(store, id, earlier);
        let longer = checks_under(held, id)->Ok_0.checked(now);
        lemma_check_appends(held, id, now);
        assert forall|i: int| 0 <= i < longer.check_dt.len() implies (
        #[trigger] longer.check_dt[i]).valid() by {
            if i < before.check_dt.len() {
                assert(store.checks[id]->0.dated());
            } else if i < longer.check_dt.len() - 1 {
                assert(earlier[i - before.check_dt.len()].valid());
            } else {
                assert(clock[clock.len() - 1].valid());
            }
        }
        lemma_kept_list(longer);
        assert(whole_seconds(longer.check_dt) =~= before.check_dt + whole_seconds(clock));
    }
}

/// After as many checks against a habit without checks as the clock was read,
/// one after the other, `list_habit_checks` gives exactly as many checks, each
/// the clock's reading of its run to the second; where the clock never went
/// back, no check lies before an earlier one.
pub proof fn lemma_checks_in_order(
    store: Store,
    id: Seq<char>,
    clock: Seq<DateTime>,
    later: DateTime,
)
    requires
        checks_under(store, id) == Ok::<HabitCheckListView, HabitError>(
            HabitCheckListView::empty(id),
        ),
        forall|i: int| 0 <= i < clock.len() ==> (#[trigger] clock[i]).valid(),
    ensures
        run(check_each(store, id, clock), listing_checks(id), later).1 == succeeded(
            ResponseView::Checks(HabitCheckListView { id, check_dt: whole_seconds(clock) }),
        ),
        whole_seconds(clock).len() == clock.len(),
        ascending(clock) ==> ascending(whole_seconds(clock)),
{
    reveal_with_fuel(drive, 3);
    lemma_checks_accumulate(store, id, clock);
}

/// Why `check_habit` wants a list to itself: where two runs both read the list
/// before either has written it back, the store ends up with the list of the
/// run that wrote last, and the check of the other is lost.
pub proof fn lemma_interleaved_checks_lose_one(
    store: Store,
    id: Seq<char>,
    first: DateTime,
    second: DateTime,
)
    requires
        checks_under(store, id) is Ok,
    ensures
        ({
            let before = checks_under(store, id)->Ok_0;
            let read = store.reply(RequestView::ReadChecks { id });
            let one = check_added(id, read, first);
            let other = check_added(id, read, second);
            &&& checking(id).rewrites() == Some(id)
            &&& store.after(one->request).after(other->request).checks[id] == Some(
                before.checked(second).record(),
            )
        }),
{
}

} // verus!
