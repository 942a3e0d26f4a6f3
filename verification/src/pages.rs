//! What the statements that read the ledger answer, over its rows.

use crate::history::HistoryRowView;
use crate::query::{
    count_query, page_limit, page_query, search_condition, searched, QueryView, SqlValueView, ALL_ROWS, COUNT_ALL,
    COUNT_MATCHING, PAGE_OF_ALL, PAGE_OF_MATCHING,
};
use crate::search::escaped;
use crate::text::trimmed;
use vstd::prelude::*;

verus! {

/// Whether a row stands before another in the order `attempted_at DESC, id DESC`.
pub open spec fn newer(a: HistoryRowView, b: HistoryRowView) -> bool {
    a.attempted_at > b.attempted_at || (a.attempted_at == b.attempted_at && a.id > b.id)
}

/// Whether rows stand in that order.
pub open spec fn newest_first(rows: Seq<HistoryRowView>) -> bool {
    forall|i: int, j: int| 0 <= i < j < rows.len() ==> newer(#[trigger] rows[i], #[trigger] rows[j])
}

/// Whether the condition of a statement holds of a row; a statement without a pattern has none.
pub open spec fn holds(row: HistoryRowView, pattern: Option<Seq<char>>) -> bool {
    match pattern {
        Some(text) => search_condition(row, text),
        None => true,
    }
}

/// The rows of which the condition holds, in their order.
pub open spec fn chosen(rows: Seq<HistoryRowView>, pattern: Option<Seq<char>>) -> Seq<HistoryRowView>
    decreases rows.len(),
{
    if rows.len() == 0 {
        Seq::empty()
    } else if holds(rows.last(), pattern) {
        chosen(rows.drop_last(), pattern).push(rows.last())
    } else {
        chosen(rows.drop_last(), pattern)
    }
}

/// The smaller of two numbers.
pub open spec fn at_most(n: int, bound: int) -> int {
    if n < bound {
        n
    } else {
        bound
    }
}

/// What `LIMIT limit OFFSET offset` leaves of rows.
pub open spec fn slice(rows: Seq<HistoryRowView>, limit: int, offset: int) -> Seq<HistoryRowView> {
    rows.subrange(at_most(offset, rows.len() as int), at_most(offset + limit, rows.len() as int))
}

/// The rows with which a reading statement is answered, where the ledger holds the given rows,
/// newest first.
pub open spec fn answered_rows(query: QueryView, ledger: Seq<HistoryRowView>) -> Seq<HistoryRowView> {
    if query.sql == PAGE_OF_MATCHING@ && query.params.len() == 3 {
        match (query.params[0], query.params[1], query.params[2]) {
            (SqlValueView::Text(pattern), SqlValueView::Integer(limit), SqlValueView::Integer(offset)) => slice(
                chosen(ledger, Some(pattern)),
                limit as int,
                offset as int,
            ),
            _ => Seq::empty(),
        }
    } else if query.sql == PAGE_OF_ALL@ && query.params.len() == 2 {
        match (query.params[0], query.params[1]) {
            (SqlValueView::Integer(limit), SqlValueView::Integer(offset)) => slice(
                ledger,
                limit as int,
                offset as int,
            ),
            _ => Seq::empty(),
        }
    } else if query.sql == ALL_ROWS@ && query.params.len() == 0 {
        ledger
    } else {
        Seq::empty()
    }
}

/// The number with which a counting statement is answered.
pub open spec fn answered_count(query: QueryView, ledger: Seq<HistoryRowView>) -> nat {
    if query.sql == COUNT_MATCHING@ && query.params.len() == 1 {
        match query.params[0] {
            SqlValueView::Text(pattern) => chosen(ledger, Some(pattern)).len(),
            _ => 0,
        }
    } else if query.sql == COUNT_ALL@ && query.params.len() == 0 {
        ledger.len()
    } else {
        0
    }
}

/// The rows that a search box's content finds: all of them where it is blank.
pub open spec fn found(ledger: Seq<HistoryRowView>, query: Option<Seq<char>>) -> Seq<HistoryRowView> {
    chosen(
        ledger,
        match searched(query) {
            Some(text) => Some(escaped(text)),
            None => None,
        },
    )
}

/// A page of the ledger: what is found, from the offset on, and at most as much as a page holds.
pub open spec fn page(ledger: Seq<HistoryRowView>, limit: u64, offset: u64, query: Option<Seq<char>>) -> Seq<
    HistoryRowView,
> {
    slice(found(ledger, query), page_limit(limit) as int, offset as int)
}

/// The first `count` pages of `size` rows each, end to end.
pub open spec fn pages(ledger: Seq<HistoryRowView>, size: u64, query: Option<Seq<char>>, count: nat) -> Seq<
    HistoryRowView,
>
    decreases count,
{
    if count == 0 {
        Seq::empty()
    } else {
        pages(ledger, size, query, (count - 1) as nat) + page(ledger, size, ((count - 1) * size) as u64, query)
    }
}

/// Without a condition all rows are chosen.
proof fn lemma_chosen_all(rows: Seq<HistoryRowView>)
    ensures
        chosen(rows, None) == rows,
    decreases rows.len(),
{
    if rows.len() > 0 {
        lemma_chosen_all(rows.drop_last());
        assert(chosen(rows, None) =~= rows);
    }
}

/// What is chosen is among the rows and meets the condition, every row that meets it is chosen, and
/// the order stays.
proof fn lemma_chosen(rows: Seq<HistoryRowView>, pattern: Option<Seq<char>>)
    ensures
        chosen(rows, pattern).len() <= rows.len(),
        forall|row: HistoryRowView|
            chosen(rows, pattern).contains(row) <==> #[trigger] rows.contains(row) && holds(row, pattern),
        newest_first(rows) ==> newest_first(chosen(rows, pattern)),
    decreases rows.len(),
{
    if rows.len() > 0 {
        let before = rows.drop_last();
        let last = rows.last();
        let earlier = chosen(before, pattern);
        let all = chosen(rows, pattern);
        lemma_chosen(before, pattern);
        assert forall|row: HistoryRowView| all.contains(row) <==> #[trigger] rows.contains(row) && holds(row, pattern) by {
            assert(before.contains(row) ==> rows.contains(row)) by {
                if before.contains(row) {
                    let k = choose|k: int| 0 <= k < before.len() && before[k] == row;
                    assert(rows[k] == row);
                }
            }
            assert(rows.contains(row) ==> before.contains(row) || row == last) by {
                if rows.contains(row) {
                    let k = choose|k: int| 0 <= k < rows.len() && rows[k] == row;
                    if k < before.len() {
                        assert(before[k] == row);
                    }
                }
            }
            assert(rows[rows.len() - 1] == last);
            assert(earlier.contains(row) ==> all.contains(row)) by {
                if earlier.contains(row) {
                    let k = choose|k: int| 0 <= k < earlier.len() && earlier[k] == row;
                    assert(all[k] == row);
                }
            }
            assert(all.contains(row) ==> earlier.contains(row) || (row == last && holds(last, pattern))) by {
                if all.contains(row) {
                    let k = choose|k: int| 0 <= k < all.len() && all[k] == row;
                    if k < earlier.len() {
                        assert(earlier[k] == row);
                    }
                }
            }
            if holds(last, pattern) {
                assert(all[all.len() - 1] == last);
            }
        }
        if newest_first(rows) {
            assert(newest_first(before)) by {
                assert(forall|i: int| 0 <= i < before.len() ==> #[trigger] before[i] == rows[i]);
            }
            assert forall|i: int, j: int| 0 <= i < j < all.len() implies newer(#[trigger] all[i], #[trigger] all[j]) by {
                if j < earlier.len() {
                    assert(all[i] == earlier[i] && all[j] == earlier[j]);
                } else {
                    assert(all[i] == earlier[i] && all[j] == last);
                    assert(earlier.contains(earlier[i]));
                    assert(before.contains(earlier[i]));
                    let k = choose|k: int| 0 <= k < before.len() && before[k] == earlier[i];
                    assert(newer(rows[k], rows[rows.len() - 1]));
                }
            }
        }
    }
}

/// The two statements of a page request are answered with the page and with the number of all rows
/// that the search finds.
pub proof fn request_is_answered_with_its_page(
    ledger: Seq<HistoryRowView>,
    limit: u64,
    offset: u64,
    query: Option<Seq<char>>,
)
    requires
        offset <= i64::MAX,
    ensures
        answered_rows(page_query(limit, offset, query), ledger) == page(ledger, limit, offset, query),
        answered_count(count_query(query), ledger) == found(ledger, query).len(),
{
    lemma_chosen_all(ledger);
}

/// A page holds rows that the search finds, newest first, from the offset on, and at most as many
/// as a page may hold.
pub proof fn page_holds_what_is_found(
    ledger: Seq<HistoryRowView>,
    limit: u64,
    offset: u64,
    query: Option<Seq<char>>,
)
    requires
        newest_first(ledger),
    ensures
        ({
            let all = found(ledger, query);
            let part = page(ledger, limit, offset, query);
            &&& newest_first(part)
            &&& part.len() == at_most(
                page_limit(limit) as int,
                if offset <= all.len() {
                    all.len() - offset
                } else {
                    0
                },
            )
            &&& forall|i: int| 0 <= i < part.len() ==> #[trigger] part[i] == all[offset + i]
            &&& forall|row: HistoryRowView|
                all.contains(row) <==> #[trigger] ledger.contains(row) && holds(
                    row,
                    match searched(query) {
                        Some(text) => Some(escaped(text)),
                        None => None,
                    },
                )
        }),
{
    let pattern = match searched(query) {
        Some(text) => Some(escaped(text)),
        None => None,
    };
    lemma_chosen(ledger, pattern);
    let all = found(ledger, query);
    let part = page(ledger, limit, offset, query);
    assert forall|i: int, j: int| 0 <= i < j < part.len() implies newer(#[trigger] part[i], #[trigger] part[j]) by {
        assert(part[i] == all[offset + i] && part[j] == all[offset + j]);
    }
}

/// The first pages, end to end, are the first rows that are found.
proof fn lemma_pages(ledger: Seq<HistoryRowView>, size: u64, query: Option<Seq<char>>, count: nat)
    requires
        1 <= size <= 200,
        count * size <= i64::MAX,
    ensures
        pages(ledger, size, query, count) == found(ledger, query).take(
            at_most((count * size) as int, found(ledger, query).len() as int),
        ),
    decreases count,
{
    let all = found(ledger, query);
    if count > 0 {
        let before = (count - 1) as nat;
        assert(before * size + size == count * size) by (nonlinear_arith)
            requires
                before == count - 1,
                count > 0,
        ;
        assert(0 <= before * size) by (nonlinear_arith);
        lemma_pages(ledger, size, query, before);
        assert(pages(ledger, size, query, count) =~= all.take(at_most((count * size) as int, all.len() as int)));
    } else {
        assert(count * size == 0) by (nonlinear_arith)
            requires
                count == 0,
        ;
        assert(pages(ledger, size, query, count) =~= all.take(0));
    }
}

/// How many pages of `size` rows hold `rows` rows.
pub open spec fn page_count(rows: nat, size: u64) -> nat {
    (rows + size - 1) as nat / size as nat
}

/// Pages of one size, read one after the other up to the first empty one and put end to end, give
/// every row that is found once and in order, and each of them is told with the number of all of
/// those rows. Without a search that is the whole ledger. Every offset that is asked for fits
/// SQLite's integers, unless the ledger is longer than they can count.
pub proof fn pages_make_the_ledger(ledger: Seq<HistoryRowView>, size: u64, query: Option<Seq<char>>)
    requires
        1 <= size <= 200,
        found(ledger, query).len() + size <= i64::MAX,
    ensures
        ({
            let all = found(ledger, query);
            let count = page_count(all.len(), size);
            &&& pages(ledger, size, query, count) == all
            &&& count * size <= i64::MAX
            &&& page(ledger, size, (count * size) as u64, query) == Seq::<HistoryRowView>::empty()
            &&& forall|k: nat| k < count ==> (#[trigger] page(ledger, size, (k * size) as u64, query)).len() > 0
            &&& answered_count(count_query(query), ledger) == all.len()
            &&& searched(query) is None ==> all == ledger
        }),
{
    let all = found(ledger, query);
    let count = page_count(all.len(), size);
    vstd::arithmetic::div_mod::lemma_fundamental_div_mod(all.len() + size - 1, size as int);
    assert(size * count == count * size) by (nonlinear_arith);
    assert(all.len() <= count * size <= all.len() + size - 1);
    lemma_pages(ledger, size, query, count);
    assert(all.take(all.len() as int) =~= all);
    assert(page(ledger, size, (count * size) as u64, query) =~= Seq::empty());
    assert forall|k: nat| k < count implies (#[trigger] page(ledger, size, (k * size) as u64, query)).len() > 0 by {
        assert(0 <= k * size <= count * size - size) by (nonlinear_arith)
            requires
                k + 1 <= count,
                1 <= size,
        ;
    }
    lemma_chosen_all(ledger);
}

/// A page has at least one row's room and at most two hundred, and a blank search is none.
pub proof fn requests_are_normalized(limit: u64, offset: u64, query: Option<Seq<char>>, blank: Seq<char>)
    requires
        trimmed(blank).len() == 0,
    ensures
        page_query(0, offset, query) == page_query(1, offset, query),
        limit >= 200 ==> page_query(limit, offset, query) == page_query(200, offset, query),
        page_query(limit, offset, Some(blank)) == page_query(limit, offset, None),
        count_query(Some(blank)) == count_query(None),
{
}

/// A visit that is attempted no earlier than all others and has a greater ID comes first.
pub proof fn newest_visit_comes_first(ledger: Seq<HistoryRowView>, row: HistoryRowView)
    requires
        newest_first(ledger),
        forall|i: int|
            0 <= i < ledger.len() ==> (#[trigger] ledger[i]).attempted_at <= row.attempted_at && ledger[i].id < row.id,
    ensures
        newest_first(seq![row] + ledger),
{
    let all = seq![row] + ledger;
    assert forall|i: int, j: int| 0 <= i < j < all.len() implies newer(#[trigger] all[i], #[trigger] all[j]) by {
        assert(all[j] == ledger[j - 1]);
        if i > 0 {
            assert(all[i] == ledger[i - 1]);
        }
    }
}

} // verus!
