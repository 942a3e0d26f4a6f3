use folio_browser::history::{
    attempt_entry, duckduckgo_search_query, search_query_of, sqlite_integer, HistoryEntry, HistoryRow, HistoryStore,
    NavigationStatus, PendingNavigation,
};
use folio_browser::address::Address;
use folio_browser::query::{Query, SqlValue, ALL_ROWS};
use folio_browser::search::escape_like_pattern;
use folio_browser::timestamp::timestamp_iso;
use rusqlite::types::Value;
use rusqlite::{params_from_iter, Connection, Row};

fn database() -> Connection {
    let connection = Connection::open_in_memory().unwrap();
    connection
        .execute_batch(
            "CREATE TABLE history_entries (
                id INTEGER PRIMARY KEY AUTOINCREMENT,
                attempted_at INTEGER NOT NULL CHECK (attempted_at >= 0),
                updated_at INTEGER NOT NULL CHECK (updated_at >= 0),
                url TEXT NOT NULL,
                title TEXT,
                status TEXT NOT NULL CHECK (status IN ('attempted', 'started', 'completed')),
                source TEXT NOT NULL,
                submitted_input TEXT,
                search_query TEXT,
                search_url TEXT
            );",
        )
        .unwrap();
    connection
}

fn row(row: &Row<'_>) -> rusqlite::Result<HistoryRow> {
    Ok(HistoryRow {
        id: row.get(0)?,
        attempted_at: row.get(1)?,
        updated_at: row.get(2)?,
        url: row.get(3)?,
        title: row.get(4)?,
        status: row.get(5)?,
        source: row.get(6)?,
        submitted_input: row.get(7)?,
        search_query: row.get(8)?,
        search_url: row.get(9)?,
    })
}

fn insert(connection: &Connection, entry: HistoryEntry) -> HistoryEntry {
    let stored = entry.to_row().unwrap();
    connection
        .execute(
            "INSERT INTO history_entries (attempted_at, updated_at, url, title, status, source,
                submitted_input, search_query, search_url) VALUES (?, ?, ?, ?, ?, ?, ?, ?, ?)",
            (
                stored.attempted_at,
                stored.updated_at,
                stored.url,
                stored.title,
                stored.status,
                stored.source,
                stored.submitted_input,
                stored.search_query,
                stored.search_url,
            ),
        )
        .unwrap();
    HistoryStore::attempt_stored(entry, connection.last_insert_rowid()).unwrap()
}

fn stored(connection: &Connection, id: u64) -> Option<HistoryRow> {
    let sql = "SELECT id, attempted_at, updated_at, url, title, status, source, submitted_input,
        search_query, search_url FROM history_entries WHERE id = ?";
    connection.query_row(sql, [id as i64], row).ok()
}

fn write(connection: &Connection, change: Option<HistoryRow>) {
    if let Some(changed) = change {
        connection
            .execute(
                "UPDATE history_entries SET status = ?, title = ?, updated_at = ? WHERE id = ?",
                (changed.status, changed.title, changed.updated_at, changed.id),
            )
            .unwrap();
    }
}

fn values(query: &Query) -> Vec<Value> {
    query
        .params
        .iter()
        .map(|value| match value {
            SqlValue::Integer(number) => Value::Integer(*number),
            SqlValue::Text(text) => Value::Text(text.clone()),
        })
        .collect()
}

fn rows(connection: &Connection, sql: &str, values: Vec<Value>) -> Vec<HistoryRow> {
    let mut statement = connection.prepare(sql).unwrap();
    let found = statement.query_map(params_from_iter(values), row).unwrap();
    found.map(|found| found.unwrap()).collect()
}

fn entries(connection: &Connection) -> Vec<HistoryEntry> {
    HistoryStore::entries_newest_first(rows(connection, ALL_ROWS, Vec::new())).unwrap()
}

fn page(connection: &Connection, limit: u64, offset: u64, query: Option<&str>) -> (Vec<String>, u64) {
    let request = HistoryStore::history_page(limit, offset, query.map(str::to_owned));
    let total: i64 = connection
        .query_row(&request.count.sql, params_from_iter(values(&request.count)), |row| row.get(0))
        .unwrap();
    let reading = request.rows.unwrap();
    let found = rows(connection, &reading.sql, values(&reading));
    (found.into_iter().map(|row| row.url).collect(), HistoryStore::page_total(total).unwrap())
}

#[test]
fn persists_history_entries_and_updates_by_stable_id() {
    let connection = database();
    let mut history = HistoryStore::open();
    let first = insert(&connection, history.record_attempt("https://example.com/", 10).unwrap());
    let second = insert(&connection, history.record_attempt("https://example.com/", 10).unwrap());

    // A late event from the first visit must not update the newer visit to the same URL.
    let status = NavigationStatus::Completed;
    write(&connection, history.update_status(first.id, status, 11, stored(&connection, first.id)).unwrap());
    write(&connection, history.update_title(first.id, "First title", 12, stored(&connection, first.id)).unwrap());
    let status = NavigationStatus::Started;
    write(&connection, history.update_status(second.id, status, 13, stored(&connection, second.id)).unwrap());
    write(&connection, history.update_title(second.id, "Second title", 14, stored(&connection, second.id)).unwrap());

    let entries = entries(&connection);
    assert_eq!(entries.len(), 2);
    assert_eq!(entries[0].id, second.id);
    assert_eq!(entries[0].status, NavigationStatus::Started);
    assert_eq!(entries[0].title.as_deref(), Some("Second title"));
    assert_eq!(entries[0].updated_at, 14);
    assert_eq!(entries[1].id, first.id);
    assert_eq!(entries[1].status, NavigationStatus::Completed);
    assert_eq!(entries[1].title.as_deref(), Some("First title"));
    assert_eq!(entries[1].attempted_at, 10);
}

#[test]
fn a_repeated_event_changes_nothing() {
    let history = HistoryStore::open();
    let entry = HistoryStore::open().record_attempt("https://example.com/", 10).unwrap();
    let row = HistoryStore::attempt_stored(entry, 3).unwrap().to_row().unwrap();
    let again = history.update_status(3, NavigationStatus::Attempted, 11, Some(row.clone())).unwrap();
    assert!(again.is_none());
    assert!(history.update_title(3, "  ", 11, Some(row.clone())).unwrap().is_none());
    let titled = history.update_title(3, " A title ", 11, Some(row)).unwrap().unwrap();
    assert_eq!(titled.title.as_deref(), Some("A title"));
    assert!(history.update_title(3, "A title", 12, Some(titled.clone())).unwrap().is_none());
    assert!(history.update_title(4, "Another", 12, Some(titled)).unwrap().is_none());
    assert!(history.update_title(3, "A title", 12, None).unwrap().is_none());
}

#[test]
fn numbers_beyond_sqlite_are_refused() {
    let large = i64::MAX as u64 + 1;
    let message = "Timestamp exceeds SQLite's integer range.";
    assert_eq!(sqlite_integer(large).unwrap_err(), message);
    assert_eq!(sqlite_integer(i64::MAX as u64).unwrap(), i64::MAX);
    let mut history = HistoryStore::open();
    assert_eq!(history.record_attempt("https://example.com/", large).unwrap_err(), message);
    assert_eq!(history.update_status(1, NavigationStatus::Started, large, None).unwrap_err(), message);
    assert_eq!(history.update_status(large, NavigationStatus::Started, 1, None).unwrap_err(), message);
    assert_eq!(history.update_title(large, "x", 1, None).unwrap_err(), message);
    assert!(history.update_title(large, "", 1, None).unwrap().is_none());
    assert_eq!(HistoryStore::history_page(1, large, None).rows.unwrap_err(), message);
    let entry = history.record_attempt("https://example.com/", 1).unwrap();
    assert_eq!(
        HistoryStore::attempt_stored(entry, -1).unwrap_err(),
        "History database generated an invalid ID."
    );
    assert_eq!(HistoryStore::page_total(-1).unwrap_err(), "History database returned a negative total.");
}

fn plain_row() -> HistoryRow {
    HistoryStore::open().record_attempt("https://example.com/", 10).unwrap().to_row().unwrap()
}

#[test]
fn rows_out_of_range_are_reported() {
    let message = |row: HistoryRow| HistoryStore::entry_from_row(row).unwrap_err();
    let mut row = plain_row();
    row.id = -1;
    assert_eq!(message(row), "History database contains a negative ID.");
    let mut row = plain_row();
    row.attempted_at = -1;
    assert_eq!(message(row), "History database contains a negative attempt timestamp.");
    let mut row = plain_row();
    row.updated_at = -1;
    assert_eq!(message(row), "History database contains a negative update timestamp.");
    let mut row = plain_row();
    row.status = "done".to_owned();
    assert_eq!(message(row.clone()), "History database contains an invalid navigation status: done");
    assert_eq!(
        HistoryStore::entries_newest_first(vec![plain_row(), row]).unwrap_err(),
        "History database contains an invalid navigation status: done"
    );
}

fn pending(target: &str, query: Option<&str>) -> PendingNavigation {
    PendingNavigation {
        target_url: target.to_owned(),
        source: "address".to_owned(),
        submitted_input: Some("typed".to_owned()),
        search_query: query.map(str::to_owned),
        search_url: None,
    }
}

#[test]
fn a_pending_navigation_tells_of_one_attempt() {
    let mut history = HistoryStore::open();
    history.set_pending(pending("https://example.com/", None));
    assert_eq!(history.record_attempt("https://other.example/", 1).unwrap().source, "page");
    let entry = history.record_attempt("https://example.com/", 2).unwrap();
    assert_eq!(entry.source, "address");
    assert_eq!(entry.submitted_input.as_deref(), Some("typed"));
    assert_eq!(entry.search_query, None);
    assert_eq!(history.record_attempt("https://example.com/", 3).unwrap().source, "page");
    history.set_pending(pending("https://example.com/", None));
    history.clear_pending();
    assert_eq!(history.record_attempt("https://example.com/", 4).unwrap().source, "page");
}

#[test]
fn recognizes_searches_by_their_address() {
    assert_eq!(duckduckgo_search_query("https://duckduckgo.com/?q=rust+book").as_deref(), Some("rust book"));
    assert_eq!(duckduckgo_search_query("https://www.duckduckgo.com/?t=a&q=%20&q=b").as_deref(), Some("b"));
    assert_eq!(duckduckgo_search_query("https://duckduckgo.com/?q="), None);
    assert_eq!(duckduckgo_search_query("https://example.com/?q=rust"), None);
    assert_eq!(duckduckgo_search_query("not an address"), None);
    let mut history = HistoryStore::open();
    let entry = history.record_attempt("https://duckduckgo.com/?q=rust", 1).unwrap();
    assert_eq!(entry.source, "duckduckgo");
    assert_eq!(entry.submitted_input.as_deref(), Some("rust"));
    assert_eq!(entry.search_query.as_deref(), Some("rust"));
    assert_eq!(entry.search_url.as_deref(), Some("https://duckduckgo.com/?q=rust"));
}

#[test]
fn what_is_known_comes_before_what_is_seen() {
    let entry = attempt_entry(
        Some(pending("https://duckduckgo.com/?q=seen", Some("known"))),
        Some("seen".to_owned()),
        "https://duckduckgo.com/?q=seen",
        5,
    );
    assert_eq!(entry.submitted_input.as_deref(), Some("typed"));
    assert_eq!(entry.search_query.as_deref(), Some("known"));
    assert_eq!(entry.search_url.as_deref(), Some("https://duckduckgo.com/?q=seen"));
    assert_eq!((entry.attempted_at, entry.updated_at, entry.status), (5, 5, NavigationStatus::Attempted));
}

#[test]
fn reads_the_search_of_an_address() {
    let mut address = Address {
        text: "https://duckduckgo.com/?q=x".to_owned(),
        scheme: "https".to_owned(),
        host: Some("duckduckgo.com".to_owned()),
        path: "/".to_owned(),
        pairs: vec![("a".to_owned(), "b".to_owned()), ("q".to_owned(), " x ".to_owned())],
    };
    assert_eq!(search_query_of(&address).as_deref(), Some(" x "));
    address.host = None;
    assert_eq!(search_query_of(&address), None);
}

#[test]
fn escapes_pattern_signs() {
    assert_eq!(escape_like_pattern("50%_a\\b"), "50\\%\\_a\\\\b");
}

#[test]
fn pages_through_the_ledger() {
    let connection = database();
    let mut history = HistoryStore::open();
    for (time, url) in [(1, "https://a.example/"), (3, "https://b.example/100%25"), (2, "https://c.example/x_y")] {
        insert(&connection, history.record_attempt(url, time).unwrap());
    }
    let all = ["https://b.example/100%25", "https://c.example/x_y", "https://a.example/"];
    assert_eq!(page(&connection, 200, 0, None), (all.iter().map(|url| (*url).to_owned()).collect(), 3));
    assert_eq!(page(&connection, 0, 1, Some("  ")), (vec![all[1].to_owned()], 3));
    assert_eq!(page(&connection, 5, 0, Some(" B.EXAMPLE ")), (vec![all[0].to_owned()], 1));
    // The signs of patterns are searched for as they are.
    assert_eq!(page(&connection, 5, 0, Some("%")), (vec![all[0].to_owned()], 1));
    assert_eq!(page(&connection, 5, 0, Some("_")), (vec![all[1].to_owned()], 1));
    assert_eq!(page(&connection, 5, 0, Some("\\")).1, 0);
    assert_eq!(page(&connection, 5, 0, Some("page")).1, 3);
}

#[test]
fn pages_end_to_end_are_the_ledger() {
    let connection = database();
    let mut history = HistoryStore::open();
    for time in [4, 1, 7, 7, 2, 9, 3] {
        insert(&connection, history.record_attempt(&format!("https://example.com/{time}"), time).unwrap());
    }
    let all: Vec<String> = entries(&connection).into_iter().map(|entry| entry.url).collect();
    assert_eq!(all.len(), 7);
    let mut paged = Vec::new();
    for offset in [0, 3, 6] {
        let (urls, total) = page(&connection, 3, offset, None);
        assert_eq!(total, 7);
        paged.extend(urls);
    }
    assert_eq!(paged, all);
    assert_eq!(page(&connection, 3, 9, None), (Vec::new(), 7));
}

#[test]
fn an_attempt_is_a_row_of_its_own() {
    let connection = database();
    let mut history = HistoryStore::open();
    let first = insert(&connection, history.record_attempt("https://example.com/", 10).unwrap());
    let before = format!("{:?}", stored(&connection, first.id));
    let second = insert(&connection, history.record_attempt("https://example.com/", 20).unwrap());
    assert!(second.id > first.id);
    assert_eq!(format!("{:?}", stored(&connection, first.id)), before);
    let added = stored(&connection, second.id).unwrap();
    assert_eq!((added.url.as_str(), added.attempted_at, added.updated_at), ("https://example.com/", 20, 20));
    assert_eq!(added.status, "attempted");
    assert_eq!(entries(&connection).len(), 2);

    // Not even the ID of a visit that is gone is given again.
    connection.execute("DELETE FROM history_entries WHERE id = ?", [second.id as i64]).unwrap();
    let third = insert(&connection, history.record_attempt("https://example.com/", 30).unwrap());
    assert!(third.id > second.id);
}

#[test]
fn bounds_the_length_of_a_page() {
    let limit = |asked: Option<u64>| {
        let rows = HistoryStore::requested_page(asked, None, None).rows.unwrap();
        match rows.params[0] {
            SqlValue::Integer(number) => number,
            SqlValue::Text(_) => panic!(),
        }
    };
    assert_eq!(limit(None), 200);
    assert_eq!(limit(Some(0)), 1);
    assert_eq!(limit(Some(50)), 50);
    assert_eq!(limit(Some(1000)), 200);
    assert_eq!(limit(Some(u64::MAX)), 200);
}

#[test]
fn formats_export_timestamp_as_iso_utc() {
    assert_eq!(timestamp_iso(0).unwrap(), "1970-01-01T00:00:00Z");
}

#[test]
fn formats_milliseconds_and_refuses_far_times() {
    assert_eq!(timestamp_iso(1_700_000_000_123).unwrap(), "2023-11-14T22:13:20.123Z");
    assert_eq!(timestamp_iso(253_402_300_799_999).unwrap(), "9999-12-31T23:59:59.999Z");
    assert!(timestamp_iso(253_402_300_800_000).is_err());
    assert!(timestamp_iso(u64::MAX).is_err());
}
