//! What holds of the browsing ledger as a whole.

use crate::history::{
    attempt_of, context_for, entry_of_row, pending_after, row_of_entry, search_of_text, status_change,
    stored_entry_reads_back, title_change, HistoryEntryView, HistoryRowView, NavigationStatus, PendingNavigationView,
};
use vstd::prelude::*;

verus! {

/// A table of visits, each under its ID.
pub open spec fn keyed(table: Map<i64, HistoryRowView>) -> bool {
    forall|k: i64| table.contains_key(k) ==> (#[trigger] table[k]).id == k
}

/// The row that a table holds for an ID.
pub open spec fn row_at(table: Map<i64, HistoryRowView>, id: u64) -> Option<HistoryRowView> {
    if id <= i64::MAX && table.contains_key(id as i64) {
        Some(table[id as i64])
    } else {
        None
    }
}

/// The table after a row has been written.
pub open spec fn written(table: Map<i64, HistoryRowView>, change: Option<HistoryRowView>) -> Map<i64, HistoryRowView> {
    match change {
        Some(row) => table.insert(row.id, row),
        None => table,
    }
}

/// The table after the row of a recorded attempt has been inserted.
pub open spec fn with_attempt(table: Map<i64, HistoryRowView>, entry: HistoryEntryView) -> Map<i64, HistoryRowView> {
    table.insert(entry.id as i64, row_of_entry(entry))
}

/// The entry of an attempt to reach `url` that SQLite has stored under an ID, where `pending` is
/// the navigation that the browser has asked for.
pub open spec fn recorded(pending: Option<PendingNavigationView>, url: Seq<char>, now: u64, row_id: i64) -> HistoryEntryView {
    HistoryEntryView { id: row_id as u64, ..attempt_of(context_for(pending, url), search_of_text(url), url, now) }
}

/// Recording an attempt under a new ID leaves every visit as it was and adds exactly one, which
/// reads back as the recorded entry: attempted and changed at the same time, and no further.
pub proof fn attempt_adds_one_visit(
    table: Map<i64, HistoryRowView>,
    pending: Option<PendingNavigationView>,
    url: Seq<char>,
    now: u64,
    row_id: i64,
)
    requires
        keyed(table),
        now <= i64::MAX,
        row_id >= 0,
        !table.contains_key(row_id),
    ensures
        ({
            let entry = recorded(pending, url, now, row_id);
            let after = with_attempt(table, entry);
            &&& keyed(after)
            &&& after.dom() == table.dom().insert(row_id)
            &&& forall|k: i64| table.contains_key(k) ==> #[trigger] after[k] == table[k]
            &&& entry_of_row(after[row_id]) == Ok::<HistoryEntryView, Seq<char>>(entry)
            &&& entry.id == row_id
            &&& entry.url == url
            &&& entry.attempted_at == now && entry.updated_at == now
            &&& entry.status == NavigationStatus::Attempted
            &&& entry.title is None
        }),
{
    let entry = recorded(pending, url, now, row_id);
    stored_entry_reads_back(entry);
    assert(with_attempt(table, entry).dom() =~= table.dom().insert(row_id));
}

/// Whether no visit has an ID beyond the greatest that was ever given.
pub open spec fn given_up_to(table: Map<i64, HistoryRowView>, greatest: i64) -> bool {
    forall|k: i64| #[trigger] table.contains_key(k) ==> k <= greatest
}

/// The table's key is declared `AUTOINCREMENT`, so an attempt is stored under an ID greater than
/// all that were ever given, also to visits that are gone. Such an ID is new: the attempt becomes a
/// visit of its own with the greatest ID, and replaces none.
pub proof fn growing_id_is_a_new_visit(
    table: Map<i64, HistoryRowView>,
    greatest: i64,
    pending: Option<PendingNavigationView>,
    url: Seq<char>,
    now: u64,
    row_id: i64,
)
    requires
        keyed(table),
        given_up_to(table, greatest),
        now <= i64::MAX,
        0 <= greatest < row_id,
    ensures
        ({
            let entry = recorded(pending, url, now, row_id);
            let after = with_attempt(table, entry);
            &&& !table.contains_key(row_id)
            &&& keyed(after) && given_up_to(after, row_id)
            &&& after.dom() == table.dom().insert(row_id)
            &&& forall|k: i64| #[trigger] table.contains_key(k) ==> k < entry.id && after[k] == table[k]
            &&& entry_of_row(after[row_id]) == Ok::<HistoryEntryView, Seq<char>>(entry)
        }),
{
    attempt_adds_one_visit(table, pending, url, now, row_id);
    let after = with_attempt(table, recorded(pending, url, now, row_id));
    assert forall|k: i64| #[trigger] after.contains_key(k) implies k <= row_id by {
        assert(k == row_id || table.contains_key(k));
    }
}

/// An address that is attempted twice is visited twice, and what the browser knows of its
/// navigation tells of the first visit only.
pub proof fn repeated_address_is_a_second_visit(
    table: Map<i64, HistoryRowView>,
    pending: Option<PendingNavigationView>,
    url: Seq<char>,
    first_time: u64,
    first_id: i64,
    second_time: u64,
    second_id: i64,
)
    requires
        keyed(table),
        first_time <= i64::MAX && second_time <= i64::MAX,
        0 <= first_id && 0 <= second_id && first_id != second_id,
        !table.contains_key(first_id) && !table.contains_key(second_id),
    ensures
        ({
            let first = recorded(pending, url, first_time, first_id);
            let second = recorded(pending_after(pending, url), url, second_time, second_id);
            let after = with_attempt(with_attempt(table, first), second);
            &&& keyed(after)
            &&& after.dom() == table.dom().insert(first_id).insert(second_id)
            &&& after[first_id].url == url && after[second_id].url == url
            &&& entry_of_row(after[first_id]) == Ok::<HistoryEntryView, Seq<char>>(first)
            &&& entry_of_row(after[second_id]) == Ok::<HistoryEntryView, Seq<char>>(second)
            &&& second == recorded(None, url, second_time, second_id)
            &&& forall|k: i64| table.contains_key(k) ==> #[trigger] after[k] == table[k]
        }),
{
    let first = recorded(pending, url, first_time, first_id);
    attempt_adds_one_visit(table, pending, url, first_time, first_id);
    attempt_adds_one_visit(with_attempt(table, first), pending_after(pending, url), url, second_time, second_id);
}

/// An event of one visit, however late, leaves every other visit as it was, also one to the same
/// address. It adds none and drops none.
pub proof fn event_touches_one_visit(
    table: Map<i64, HistoryRowView>,
    id: u64,
    status: NavigationStatus,
    title: Seq<char>,
    now: u64,
)
    requires
        keyed(table),
    ensures
        ({
            let after = written(table, status_change(row_at(table, id), id, status, now));
            &&& keyed(after)
            &&& after.dom() == table.dom()
            &&& forall|k: i64| table.contains_key(k) && k != id ==> #[trigger] after[k] == table[k]
            &&& row_at(table, id) is Some ==> row_at(after, id)->0.status == status.name()
        }),
        ({
            let after = written(table, title_change(row_at(table, id), id, title, now));
            &&& keyed(after)
            &&& after.dom() == table.dom()
            &&& forall|k: i64| table.contains_key(k) && k != id ==> #[trigger] after[k] == table[k]
            &&& row_at(table, id) is Some ==> row_at(after, id)->0.title == Some(title)
        }),
{
    let marked = status_change(row_at(table, id), id, status, now);
    let named = title_change(row_at(table, id), id, title, now);
    if marked is Some {
        assert(table.contains_key(marked->0.id));
        assert(written(table, marked).dom() =~= table.dom());
    }
    if named is Some {
        assert(table.contains_key(named->0.id));
        assert(written(table, named).dom() =~= table.dom());
    }
}

/// The same event told twice changes nothing the second time, not even the time of the change.
pub proof fn repeated_event_changes_nothing(
    row: HistoryRowView,
    id: u64,
    status: NavigationStatus,
    title: Seq<char>,
    now: u64,
    later: u64,
)
    requires
        row.id == id,
    ensures
        ({
            let change = status_change(Some(row), id, status, now);
            status_change(
                if change is Some {
                    change
                } else {
                    Some(row)
                },
                id,
                status,
                later,
            ) is None
        }),
        ({
            let change = title_change(Some(row), id, title, now);
            title_change(
                if change is Some {
                    change
                } else {
                    Some(row)
                },
                id,
                title,
                later,
            ) is None
        }),
{
}

/// What the browser knows of a navigation tells of one attempt only, and an attempt to reach
/// another address leaves it.
pub proof fn pending_navigation_is_used_once(pending: Option<PendingNavigationView>, url: Seq<char>, other: Seq<char>)
    ensures
        context_for(pending_after(pending, url), url) is None,
        other != url ==> context_for(pending_after(pending, other), url) == context_for(pending, url),
{
}

} // verus!
