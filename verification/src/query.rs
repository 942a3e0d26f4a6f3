//! The statements that read the ledger from SQLite.

use crate::history::{entry_of_row, sqlite_integer, HistoryEntryView, HistoryRowView, HistoryStore};
use crate::search::{containing, escape_like_pattern, escaped, like, search_is_literal, stands_at};
use crate::text::{opt_text, or_empty, trim, trimmed};
use vstd::prelude::*;

verus! {

/// A value that is bound to a place in a statement.
#[derive(Debug)]
pub enum SqlValue {
    Integer(i64),
    Text(String),
}

/// A bound value with its text as a sequence of characters.
pub enum SqlValueView {
    Integer(i64),
    Text(Seq<char>),
}

impl View for SqlValue {
    type V = SqlValueView;

    open spec fn view(&self) -> SqlValueView {
        match self {
            SqlValue::Integer(number) => SqlValueView::Integer(*number),
            SqlValue::Text(text) => SqlValueView::Text(text@),
        }
    }
}

/// A statement and the values of its places, in order.
#[derive(Debug)]
pub struct Query {
    pub sql: String,
    pub params: Vec<SqlValue>,
}

/// A statement with its texts as sequences of characters.
#[verifier::ext_equal]
pub struct QueryView {
    pub sql: Seq<char>,
    pub params: Seq<SqlValueView>,
}

impl View for Query {
    type V = QueryView;

    open spec fn view(&self) -> QueryView {
        QueryView { sql: self.sql@, params: Seq::new(self.params@.len(), |i: int| self.params@[i]@) }
    }
}

/// Every row of the ledger, the newest first.
pub const ALL_ROWS: &'static str = "SELECT id, attempted_at, updated_at, url, title, status, source, submitted_input, search_query, search_url FROM history_entries ORDER BY attempted_at DESC, id DESC";

/// The number of rows of the ledger.
pub const COUNT_ALL: &'static str = "SELECT COUNT(*) FROM history_entries";

/// The number of rows that a search finds.
pub const COUNT_MATCHING: &'static str = "SELECT COUNT(*) FROM history_entries WHERE (url LIKE '%' || ?1 || '%' ESCAPE '\\' COLLATE NOCASE OR COALESCE(title, '') LIKE '%' || ?1 || '%' ESCAPE '\\' COLLATE NOCASE OR COALESCE(submitted_input, '') LIKE '%' || ?1 || '%' ESCAPE '\\' COLLATE NOCASE OR COALESCE(search_query, '') LIKE '%' || ?1 || '%' ESCAPE '\\' COLLATE NOCASE OR source LIKE '%' || ?1 || '%' ESCAPE '\\' COLLATE NOCASE)";

/// A slice of the ledger, the newest rows first.
pub const PAGE_OF_ALL: &'static str = "SELECT id, attempted_at, updated_at, url, title, status, source, submitted_input, search_query, search_url FROM history_entries ORDER BY attempted_at DESC, id DESC LIMIT ?1 OFFSET ?2";

/// A slice of the rows that a search finds, the newest first.
pub const PAGE_OF_MATCHING: &'static str = "SELECT id, attempted_at, updated_at, url, title, status, source, submitted_input, search_query, search_url FROM history_entries WHERE (url LIKE '%' || ?1 || '%' ESCAPE '\\' COLLATE NOCASE OR COALESCE(title, '') LIKE '%' || ?1 || '%' ESCAPE '\\' COLLATE NOCASE OR COALESCE(submitted_input, '') LIKE '%' || ?1 || '%' ESCAPE '\\' COLLATE NOCASE OR COALESCE(search_query, '') LIKE '%' || ?1 || '%' ESCAPE '\\' COLLATE NOCASE OR source LIKE '%' || ?1 || '%' ESCAPE '\\' COLLATE NOCASE) ORDER BY attempted_at DESC, id DESC LIMIT ?2 OFFSET ?3";

/// The two statements that answer a request for one page of the ledger.
#[derive(Debug)]
pub struct PageRequest {
    /// Counts what the request finds.
    pub count: Query,
    /// Reads the page, if its bounds fit in SQLite's integers.
    pub rows: Result<Query, String>,
}

/// What a search box's content is searched for: nothing if it is blank.
pub open spec fn searched(query: Option<Seq<char>>) -> Option<Seq<char>> {
    match query {
        Some(text) => if trimmed(text).len() > 0 {
            Some(trimmed(text))
        } else {
            None
        },
        None => None,
    }
}

/// The number of rows that a page holds when `limit` are asked for.
pub open spec fn page_limit(limit: u64) -> u64 {
    if limit < 1 {
        1
    } else if limit > 200 {
        200
    } else {
        limit
    }
}

/// The statement that counts what a page request finds.
pub open spec fn count_query(query: Option<Seq<char>>) -> QueryView {
    match searched(query) {
        Some(text) => QueryView { sql: COUNT_MATCHING@, params: seq![SqlValueView::Text(escaped(text))] },
        None => QueryView { sql: COUNT_ALL@, params: Seq::empty() },
    }
}

/// The statement that reads a page.
pub open spec fn page_query(limit: u64, offset: u64, query: Option<Seq<char>>) -> QueryView {
    match searched(query) {
        Some(text) => QueryView {
            sql: PAGE_OF_MATCHING@,
            params: seq![
                SqlValueView::Text(escaped(text)),
                SqlValueView::Integer(page_limit(limit) as i64),
                SqlValueView::Integer(offset as i64),
            ],
        },
        None => QueryView {
            sql: PAGE_OF_ALL@,
            params: seq![
                SqlValueView::Integer(page_limit(limit) as i64),
                SqlValueView::Integer(offset as i64),
            ],
        },
    }
}

impl HistoryStore {
    pub const MAX_PAGE_LIMIT: u64 = 200;

    /// The statements that answer a request for `limit` rows from `offset` on, of those that
    /// `query` finds or of all.
    pub fn history_page(limit: u64, offset: u64, query: Option<String>) -> (r: PageRequest)
        ensures
            r.count@ == count_query(opt_text(query)),
            match r.rows {
                Ok(rows) => offset <= i64::MAX && rows@ == page_query(limit, offset, opt_text(query)),
                Err(message) => {
                    &&& offset > i64::MAX
                    &&& message@ == "Timestamp exceeds SQLite's integer range."@
                },
            },
    {
        let held: u64 = if limit < 1 {
            1
        } else if limit > HistoryStore::MAX_PAGE_LIMIT {
            HistoryStore::MAX_PAGE_LIMIT
        } else {
            limit
        };
        let normalized: Option<String> = match query {
            Some(value) => {
                let shown: String = trim(value.as_str());
                if shown.as_str().is_empty() {
                    None
                } else {
                    Some(shown)
                }
            },
            None => None,
        };
        let limit_value: i64 = held as i64;
        match normalized {
            Some(text) => {
                let pattern: String = escape_like_pattern(text.as_str());
                let count: Query = Query {
                    sql: COUNT_MATCHING.to_owned(),
                    params: vec![SqlValue::Text(pattern.clone())],
                };
                assert(count@.params =~= seq![SqlValueView::Text(escaped(text@))]);
                let rows: Result<Query, String> = match sqlite_integer(offset) {
                    Ok(offset_value) => {
                        let page: Query = Query {
                            sql: PAGE_OF_MATCHING.to_owned(),
                            params: vec![
                                SqlValue::Text(pattern),
                                SqlValue::Integer(limit_value),
                                SqlValue::Integer(offset_value),
                            ],
                        };
                        assert(page@.params =~= page_query(limit, offset, opt_text(query)).params);
                        Ok(page)
                    },
                    Err(message) => Err(message),
                };
                PageRequest { count, rows }
            },
            None => {
                let count: Query = Query { sql: COUNT_ALL.to_owned(), params: Vec::new() };
                assert(count@.params =~= Seq::empty());
                let rows: Result<Query, String> = match sqlite_integer(offset) {
                    Ok(offset_value) => {
                        let page: Query = Query {
                            sql: PAGE_OF_ALL.to_owned(),
                            params: vec![SqlValue::Integer(limit_value), SqlValue::Integer(offset_value)],
                        };
                        assert(page@.params =~= page_query(limit, offset, opt_text(query)).params);
                        Ok(page)
                    },
                    Err(message) => Err(message),
                };
                PageRequest { count, rows }
            },
        }
    }

    /// The request of the browser's chrome: a full page from the start unless it says otherwise.
    pub fn requested_page(limit: Option<u64>, offset: Option<u64>, query: Option<String>) -> (r: PageRequest)
        ensures
            r.count@ == count_query(opt_text(query)),
            ({
                let from: u64 = if offset is Some { offset->0 } else { 0 };
                let size: u64 = if limit is Some { limit->0 } else { 200 };
                match r.rows {
                    Ok(rows) => from <= i64::MAX && rows@ == page_query(size, from, opt_text(query)),
                    Err(message) => {
                        &&& from > i64::MAX
                        &&& message@ == "Timestamp exceeds SQLite's integer range."@
                    },
                }
            }),
            match r.rows {
                Ok(rows) => rows@ == page_query(asked(limit, offset).0, asked(limit, offset).1, opt_text(query)),
                Err(_) => asked(limit, offset).1 > i64::MAX,
            },
    {
        let size: u64 = match limit {
            Some(value) => value,
            None => HistoryStore::MAX_PAGE_LIMIT,
        };
        let from: u64 = match offset {
            Some(value) => value,
            None => 0,
        };
        HistoryStore::history_page(size, from, query)
    }

    /// The number of rows that a request finds, as SQLite has counted it.
    pub fn page_total(total: i64) -> (r: Result<u64, String>)
        ensures
            match r {
                Ok(number) => number == total,
                Err(message) => total < 0 && message@ == "History database returned a negative total."@,
            },
    {
        if total >= 0 {
            Ok(total as u64)
        } else {
            Err("History database returned a negative total.".to_owned())
        }
    }
}

/// The condition of the searching statements, with `pattern` bound to its place.
pub open spec fn search_condition(row: HistoryRowView, pattern: Seq<char>) -> bool {
    ||| like(containing(pattern), row.url)
    ||| like(containing(pattern), or_empty(row.title))
    ||| like(containing(pattern), or_empty(row.submitted_input))
    ||| like(containing(pattern), or_empty(row.search_query))
    ||| like(containing(pattern), row.source)
}

/// Whether a text stands somewhere in another, letter case aside.
pub open spec fn stands_in(part: Seq<char>, text: Seq<char>) -> bool {
    exists|at: int| stands_at(part, text, at)
}

/// A search finds a row exactly if the searched text, white space at its ends aside, stands in
/// its address, its title, its submitted input, its search query or its source.
pub proof fn search_reads_five_columns(row: HistoryRowView, query: Seq<char>)
    requires
        trimmed(query).len() > 0,
    ensures
        count_query(Some(query)).params == seq![SqlValueView::Text(escaped(trimmed(query)))],
        search_condition(row, escaped(trimmed(query))) <==> {
            ||| stands_in(trimmed(query), row.url)
            ||| row.title is Some && stands_in(trimmed(query), row.title->0)
            ||| row.submitted_input is Some && stands_in(trimmed(query), row.submitted_input->0)
            ||| row.search_query is Some && stands_in(trimmed(query), row.search_query->0)
            ||| stands_in(trimmed(query), row.source)
        },
{
    let part = trimmed(query);
    search_is_literal(part, row.url);
    search_is_literal(part, or_empty(row.title));
    search_is_literal(part, or_empty(row.submitted_input));
    search_is_literal(part, or_empty(row.search_query));
    search_is_literal(part, row.source);
    assert(!stands_in(part, Seq::empty()));
}

/// Where SQLite hands over rows that are newest first, so are the entries.
pub proof fn entries_keep_the_order(rows: Seq<HistoryRowView>, entries: Seq<HistoryEntryView>)
    requires
        rows.len() == entries.len(),
        forall|i: int| 0 <= i < rows.len() ==> entry_of_row(#[trigger] rows[i]) == Ok::<HistoryEntryView, Seq<char>>(entries[i]),
        forall|i: int, j: int|
            0 <= i < j < rows.len() ==> (#[trigger] rows[i]).attempted_at > (#[trigger] rows[j]).attempted_at || (
            rows[i].attempted_at == rows[j].attempted_at && rows[i].id > rows[j].id),
    ensures
        forall|i: int, j: int|
            0 <= i < j < entries.len() ==> (#[trigger] entries[i]).attempted_at > (#[trigger] entries[j]).attempted_at || (
            entries[i].attempted_at == entries[j].attempted_at && entries[i].id > entries[j].id),
{
    assert forall|i: int, j: int| 0 <= i < j < entries.len() implies (#[trigger] entries[i]).attempted_at > (
    #[trigger] entries[j]).attempted_at || (entries[i].attempted_at == entries[j].attempted_at && entries[i].id
        > entries[j].id) by {
        assert(entry_of_row(rows[i]) == Ok::<HistoryEntryView, Seq<char>>(entries[i]));
        assert(entry_of_row(rows[j]) == Ok::<HistoryEntryView, Seq<char>>(entries[j]));
    }
}

/// The number of rows that a request which names none is for, and where it starts.
pub open spec fn asked(limit: Option<u64>, offset: Option<u64>) -> (u64, u64) {
    (
        match limit {
            Some(size) => size,
            None => 200,
        },
        match offset {
            Some(from) => from,
            None => 0,
        },
    )
}

/// A request gets the rows that it asks for, from where it asks, and without either a full page of two
/// hundred from the start. A page holds as many rows as are asked for, but at least one and at most
/// two hundred.
pub proof fn request_gets_what_it_asks_for(limit: u64, offset: u64)
    ensures
        asked(Some(limit), Some(offset)) == (limit, offset),
        asked(None, Some(offset)) == (200u64, offset),
        asked(Some(limit), None) == (limit, 0u64),
        1 <= limit <= 200 ==> page_limit(limit) == limit,
        limit == 0 ==> page_limit(limit) == 1,
        limit > 200 ==> page_limit(limit) == 200,
{
}

/// A search is for its text without the white space around it, and a blank one or none is for
/// everything.
pub proof fn search_is_for_its_text(before: Seq<char>, text: Seq<char>, after: Seq<char>)
    requires
        crate::text::blank(before) && crate::text::blank(after),
        text.len() > 0 ==> !crate::text::white_space(text[0]) && !crate::text::white_space(text.last()),
    ensures
        text.len() > 0 ==> searched(Some(before + text + after)) == Some(text),
        text.len() == 0 ==> searched(Some(before + text + after)) is None,
        searched(None) is None,
{
    crate::text::trimming_takes_the_ends(before, text, after);
}

/// The statement that reads a page is the one that reads everything, cut to the page, and a page of
/// what a search finds is in the same order: the newest first, and among those of one time the last
/// one first.
#[verifier::spinoff_prover]
#[verifier::rlimit(60)]
pub proof fn statements_agree()
    ensures
        PAGE_OF_ALL@ == ALL_ROWS@ + " LIMIT ?1 OFFSET ?2"@,
        has_suffix(ALL_ROWS@, " FROM history_entries ORDER BY attempted_at DESC, id DESC"@),
        has_suffix(PAGE_OF_MATCHING@, " ORDER BY attempted_at DESC, id DESC LIMIT ?2 OFFSET ?3"@),
{
    reveal_strlit(
        "SELECT id, attempted_at, updated_at, url, title, status, source, submitted_input, search_query, search_url FROM history_entries ORDER BY attempted_at DESC, id DESC",
    );
    reveal_strlit(
        "SELECT id, attempted_at, updated_at, url, title, status, source, submitted_input, search_query, search_url FROM history_entries ORDER BY attempted_at DESC, id DESC LIMIT ?1 OFFSET ?2",
    );
    reveal_strlit(" LIMIT ?1 OFFSET ?2");
    reveal_strlit(" FROM history_entries ORDER BY attempted_at DESC, id DESC");
    reveal_strlit(" ORDER BY attempted_at DESC, id DESC LIMIT ?2 OFFSET ?3");
    reveal_strlit("SELECT id, attempted_at, updated_at, url, title, status, source, submitted_input, search_query, search_url FROM history_entries WHERE (url LIKE '%' || ?1 || '%' ESCAPE '\\' COLLATE NOCASE OR COALESCE(title, '') LIKE '%' || ?1 || '%' ESCAPE '\\' COLLATE NOCASE OR COALESCE(submitted_input, '') LIKE '%' || ?1 || '%' ESCAPE '\\' COLLATE NOCASE OR COALESCE(search_query, '') LIKE '%' || ?1 || '%' ESCAPE '\\' COLLATE NOCASE OR source LIKE '%' || ?1 || '%' ESCAPE '\\' COLLATE NOCASE) ORDER BY attempted_at DESC, id DESC LIMIT ?2 OFFSET ?3");
    assert(PAGE_OF_ALL@ =~= ALL_ROWS@ + " LIMIT ?1 OFFSET ?2"@);
    let order = " FROM history_entries ORDER BY attempted_at DESC, id DESC"@;
    assert(ALL_ROWS@.skip(ALL_ROWS@.len() - order.len()) =~= order);
    let cut = " ORDER BY attempted_at DESC, id DESC LIMIT ?2 OFFSET ?3"@;
    assert(PAGE_OF_MATCHING@.skip(PAGE_OF_MATCHING@.len() - cut.len()) =~= cut);
}

/// Whether a text ends in another.
pub open spec fn has_suffix(s: Seq<char>, suffix: Seq<char>) -> bool {
    s.len() >= suffix.len() && s.skip(s.len() - suffix.len()) == suffix
}

/// The condition on one column: the text stands somewhere in it, as it is written, letter case aside.
pub open spec fn column_condition(column: Seq<char>) -> Seq<char> {
    column + " LIKE '%' || ?1 || '%' ESCAPE '\\' COLLATE NOCASE"@
}

/// The condition of a search: it holds of one of the five columns.
pub open spec fn any_column() -> Seq<char> {
    "("@ + column_condition("url"@) + " OR "@ + column_condition("COALESCE(title, '')"@) + " OR "@ + column_condition(
        "COALESCE(submitted_input, '')"@,
    ) + " OR "@ + column_condition("COALESCE(search_query, '')"@) + " OR "@ + column_condition("source"@) + ")"@
}

/// A search counts exactly what it reads: both statements have the same condition, which looks into
/// the address, the title, the input, the words and the source in the same way.
#[verifier::spinoff_prover]
#[verifier::rlimit(60)]
pub proof fn search_counts_what_it_reads()
    ensures
        COUNT_MATCHING@ == "SELECT COUNT(*) FROM history_entries WHERE "@ + any_column(),
        PAGE_OF_MATCHING@ == "SELECT id, attempted_at, updated_at, url, title, status, source, submitted_input, search_query, search_url FROM history_entries WHERE "@
            + any_column() + " ORDER BY attempted_at DESC, id DESC LIMIT ?2 OFFSET ?3"@,
        COUNT_ALL@ == "SELECT COUNT(*) FROM history_entries"@,
{
    reveal_strlit("SELECT COUNT(*) FROM history_entries WHERE (url LIKE '%' || ?1 || '%' ESCAPE '\\' COLLATE NOCASE OR COALESCE(title, '') LIKE '%' || ?1 || '%' ESCAPE '\\' COLLATE NOCASE OR COALESCE(submitted_input, '') LIKE '%' || ?1 || '%' ESCAPE '\\' COLLATE NOCASE OR COALESCE(search_query, '') LIKE '%' || ?1 || '%' ESCAPE '\\' COLLATE NOCASE OR source LIKE '%' || ?1 || '%' ESCAPE '\\' COLLATE NOCASE)");
    reveal_strlit("SELECT id, attempted_at, updated_at, url, title, status, source, submitted_input, search_query, search_url FROM history_entries WHERE (url LIKE '%' || ?1 || '%' ESCAPE '\\' COLLATE NOCASE OR COALESCE(title, '') LIKE '%' || ?1 || '%' ESCAPE '\\' COLLATE NOCASE OR COALESCE(submitted_input, '') LIKE '%' || ?1 || '%' ESCAPE '\\' COLLATE NOCASE OR COALESCE(search_query, '') LIKE '%' || ?1 || '%' ESCAPE '\\' COLLATE NOCASE OR source LIKE '%' || ?1 || '%' ESCAPE '\\' COLLATE NOCASE) ORDER BY attempted_at DESC, id DESC LIMIT ?2 OFFSET ?3");
    reveal_strlit("SELECT id, attempted_at, updated_at, url, title, status, source, submitted_input, search_query, search_url FROM history_entries WHERE ");
    reveal_strlit("SELECT COUNT(*) FROM history_entries WHERE ");
    reveal_strlit(" ORDER BY attempted_at DESC, id DESC LIMIT ?2 OFFSET ?3");
    reveal_strlit(" LIKE '%' || ?1 || '%' ESCAPE '\\' COLLATE NOCASE");
    reveal_strlit("(");
    reveal_strlit(" OR ");
    reveal_strlit(")");
    reveal_strlit("url");
    reveal_strlit("COALESCE(title, '')");
    reveal_strlit("COALESCE(submitted_input, '')");
    reveal_strlit("COALESCE(search_query, '')");
    reveal_strlit("source");
    assert(COUNT_MATCHING@ =~= "SELECT COUNT(*) FROM history_entries WHERE "@ + any_column());
    assert(PAGE_OF_MATCHING@ =~= "SELECT id, attempted_at, updated_at, url, title, status, source, submitted_input, search_query, search_url FROM history_entries WHERE "@
        + any_column() + " ORDER BY attempted_at DESC, id DESC LIMIT ?2 OFFSET ?3"@);
}

} // verus!
