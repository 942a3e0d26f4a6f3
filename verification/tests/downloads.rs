use folio_browser::download::{
    db_integer, optional_db_integer, DownloadEntry, DownloadRow, DownloadStatus, DownloadStore, ALL_DOWNLOADS,
    ONE_DOWNLOAD,
};
use folio_browser::download_manager::{
    completed_path, download_starting, open_completed_download, operation_received, operation_total,
    progress_preview, DownloadManager, OperationState, ReportedDownload,
};
use folio_browser::filename::{clean_filename, suggested_name};
use rusqlite::{Connection, Row};

const RANGE: &str = "Value exceeds SQLite's integer range.";

fn database() -> Connection {
    let connection = Connection::open_in_memory().unwrap();
    connection
        .execute_batch(
            "CREATE TABLE download_entries (
                id INTEGER PRIMARY KEY AUTOINCREMENT,
                requested_at INTEGER NOT NULL CHECK (requested_at >= 0),
                updated_at INTEGER NOT NULL CHECK (updated_at >= 0),
                completed_at INTEGER,
                url TEXT NOT NULL,
                source_page_url TEXT,
                suggested_filename TEXT NOT NULL,
                path TEXT,
                mime_type TEXT,
                content_disposition TEXT,
                status TEXT NOT NULL CHECK (status IN (
                    'requested', 'downloading', 'completed', 'failed', 'canceled', 'interrupted'
                )),
                bytes_received INTEGER NOT NULL DEFAULT 0 CHECK (bytes_received >= 0),
                total_bytes INTEGER,
                interrupt_reason TEXT
            );",
        )
        .unwrap();
    connection
}

fn row(row: &Row<'_>) -> rusqlite::Result<DownloadRow> {
    Ok(DownloadRow {
        id: row.get(0)?,
        requested_at: row.get(1)?,
        updated_at: row.get(2)?,
        completed_at: row.get(3)?,
        url: row.get(4)?,
        source_page_url: row.get(5)?,
        suggested_filename: row.get(6)?,
        path: row.get(7)?,
        mime_type: row.get(8)?,
        content_disposition: row.get(9)?,
        status: row.get(10)?,
        bytes_received: row.get(11)?,
        total_bytes: row.get(12)?,
        interrupt_reason: row.get(13)?,
    })
}

fn insert(connection: &Connection, row: DownloadRow) -> u64 {
    connection
        .execute(
            "INSERT INTO download_entries (requested_at, updated_at, url, source_page_url,
                suggested_filename, mime_type, content_disposition, status, bytes_received, total_bytes)
             VALUES (?, ?, ?, ?, ?, ?, ?, ?, ?, ?)",
            (
                row.requested_at,
                row.updated_at,
                row.url,
                row.source_page_url,
                row.suggested_filename,
                row.mime_type,
                row.content_disposition,
                row.status,
                row.bytes_received,
                row.total_bytes,
            ),
        )
        .unwrap();
    DownloadStore::request_id(connection.last_insert_rowid()).unwrap()
}

fn stored(connection: &Connection, id: u64) -> Option<DownloadRow> {
    connection.query_row(ONE_DOWNLOAD, [id as i64], row).ok()
}

fn write(connection: &Connection, change: Option<DownloadRow>) {
    if let Some(row) = change {
        connection
            .execute(
                "UPDATE download_entries SET status = ?, path = ?, interrupt_reason = ?, updated_at = ?,
                    completed_at = ?, bytes_received = ?, total_bytes = ? WHERE id = ?",
                (
                    row.status,
                    row.path,
                    row.interrupt_reason,
                    row.updated_at,
                    row.completed_at,
                    row.bytes_received,
                    row.total_bytes,
                    row.id,
                ),
            )
            .unwrap();
    }
}

fn rows(connection: &Connection) -> Vec<DownloadRow> {
    let mut statement = connection.prepare(ALL_DOWNLOADS).unwrap();
    let found = statement.query_map([], row).unwrap();
    found.map(|found| found.unwrap()).collect()
}

fn entry(connection: &Connection, id: u64) -> DownloadEntry {
    DownloadStore::existing(DownloadStore::get(id, stored(connection, id)).unwrap()).unwrap()
}

fn request(now: u64) -> DownloadRow {
    DownloadStore::record_request(
        "https://example.com/file",
        Some("https://example.com/downloads".to_owned()),
        "file.zip",
        Some("application/zip".to_owned()),
        Some("attachment; filename=file.zip".to_owned()),
        Some(100),
        now,
    )
    .unwrap()
}

/// The row of a request under an ID.
fn recorded(id: i64) -> DownloadRow {
    let mut row = request(10);
    row.id = id;
    row
}

#[test]
fn persists_download_lifecycle_and_marks_stale_work_interrupted() {
    let connection = database();
    let id = insert(&connection, request(10));
    write(
        &connection,
        DownloadStore::begin(id, "C:/Downloads/file.zip", 11, stored(&connection, id)).unwrap(),
    );
    write(&connection, DownloadStore::update_progress(id, 42, Some(100), 12, stored(&connection, id)).unwrap());
    let ended = insert(&connection, request(9));
    let finish = DownloadStore::finish(
        ended,
        DownloadStatus::Completed,
        100,
        None,
        None,
        13,
        stored(&connection, ended),
    );
    write(&connection, finish.unwrap());

    for changed in DownloadStore::open(&rows(&connection), 20).unwrap() {
        write(&connection, Some(changed));
    }
    let entry = entry(&connection, id);
    assert_eq!(entry.status, DownloadStatus::Interrupted);
    assert_eq!(entry.source_page_url.as_deref(), Some("https://example.com/downloads"));
    assert_eq!(entry.content_disposition.as_deref(), Some("attachment; filename=file.zip"));
    assert_eq!(entry.bytes_received, 42);
    assert_eq!(entry.interrupt_reason.as_deref(), Some("browser_closed"));
    assert_eq!((entry.updated_at, entry.completed_at), (20, Some(20)));
    assert_eq!(entry.path.as_deref(), Some("C:/Downloads/file.zip"));

    let all = DownloadStore::entries_newest_first(&rows(&connection)).unwrap();
    assert_eq!(all.iter().map(|entry| entry.id).collect::<Vec<u64>>(), [id, ended]);
    assert_eq!(all[1].status, DownloadStatus::Completed);
    assert_eq!((all[1].total_bytes, all[1].completed_at), (Some(100), Some(13)));
    assert!(DownloadStore::open(&rows(&connection), 30).unwrap().is_empty());
}

#[test]
fn removes_path_syntax_from_remote_filenames() {
    assert_eq!(clean_filename("../bad:<name>.zip"), ".._bad__name_.zip");
    assert_eq!(clean_filename("   "), "download");
}

#[test]
fn cleans_the_ends_of_filenames() {
    assert_eq!(clean_filename(" a b. . "), "a b");
    assert_eq!(clean_filename("..."), "download");
    assert_eq!(clean_filename("a\tb\u{7f}\"|?*\\"), "a_b______");
    assert_eq!(clean_filename(&clean_filename("../x?.")), clean_filename("../x?."));
    assert_eq!(suggested_name(None), "download");
    assert_eq!(suggested_name(Some("a/b".to_owned())), "a_b");
    // White space that dots had followed goes only the second time.
    assert_eq!(clean_filename("a\u{a0}."), "a\u{a0}");
    assert_eq!(clean_filename("a\u{a0}"), "a");
}

#[test]
fn only_running_downloads_progress() {
    let idle = DownloadStore::update_progress(4, 42, None, 12, Some(recorded(4))).unwrap();
    assert!(idle.is_none());
    let running = DownloadStore::begin(4, "/x", 11, Some(recorded(4))).unwrap().unwrap();
    assert_eq!((running.status.as_str(), running.completed_at, running.updated_at), ("downloading", None, 11));
    let progressed = DownloadStore::update_progress(4, 42, None, 12, Some(running.clone())).unwrap().unwrap();
    assert_eq!((progressed.bytes_received, progressed.total_bytes), (42, Some(100)));
    let known = DownloadStore::update_progress(4, 42, Some(200), 12, Some(running.clone())).unwrap().unwrap();
    assert_eq!(known.total_bytes, Some(200));
    assert!(DownloadStore::update_progress(5, 42, None, 12, Some(running)).unwrap().is_none());
    assert!(DownloadStore::begin(5, "/x", 11, Some(recorded(4))).unwrap().is_none());
    assert!(DownloadStore::begin(5, "/x", 11, None).unwrap().is_none());
}

#[test]
fn a_download_that_ends_keeps_its_path() {
    let running = DownloadStore::begin(4, "/x", 11, Some(recorded(4))).unwrap().unwrap();
    let reason = Some("network".to_owned());
    let failed =
        DownloadStore::finish(4, DownloadStatus::Failed, 7, None, reason, 15, Some(running.clone())).unwrap().unwrap();
    assert_eq!(failed.path.as_deref(), Some("/x"));
    assert_eq!((failed.status.as_str(), failed.bytes_received, failed.completed_at), ("failed", 7, Some(15)));
    assert_eq!(failed.interrupt_reason.as_deref(), Some("network"));
    let canceled = DownloadStore::cancel_before_start(4, 16, Some(running)).unwrap().unwrap();
    assert_eq!(canceled.status, "canceled");
    assert_eq!(canceled.interrupt_reason.as_deref(), Some("save_dialog_canceled"));
    assert_eq!((canceled.path.as_deref(), canceled.completed_at), (Some("/x"), Some(16)));
}

#[test]
fn downloads_beyond_sqlite_are_refused() {
    let large = u64::MAX;
    assert_eq!(db_integer(large).unwrap_err(), RANGE);
    assert_eq!(optional_db_integer(Some(large)).unwrap_err(), RANGE);
    assert_eq!(optional_db_integer(Some(3)).unwrap(), Some(3));
    assert_eq!(DownloadStore::open(&Vec::new(), large).unwrap_err(), RANGE);
    assert_eq!(DownloadStore::begin(large, "/x", 1, None).unwrap_err(), RANGE);
    assert_eq!(DownloadStore::cancel_before_start(1, large, None).unwrap_err(), RANGE);
    assert_eq!(DownloadStore::update_progress(1, large, None, 1, None).unwrap_err(), RANGE);
    assert_eq!(DownloadStore::finish(1, DownloadStatus::Failed, 1, Some(large), None, 1, None).unwrap_err(), RANGE);
    assert_eq!(DownloadStore::get(large, None).unwrap_err(), RANGE);
    assert_eq!(
        DownloadStore::record_request("u", None, "f", None, None, Some(large), 1).unwrap_err(),
        RANGE
    );
    assert_eq!(DownloadStore::request_id(-1).unwrap_err(), "Download database generated an invalid ID.");
}

#[test]
fn reads_rows_with_care() {
    let mut odd = recorded(-4);
    odd.requested_at = -1;
    odd.bytes_received = -1;
    odd.total_bytes = Some(-1);
    odd.completed_at = Some(-1);
    let entry = DownloadStore::entry_from_row(odd).unwrap();
    assert_eq!((entry.id, entry.requested_at, entry.bytes_received), (0, 0, 0));
    assert_eq!((entry.total_bytes, entry.completed_at), (None, None));
    let mut unknown = recorded(4);
    unknown.status = "paused".to_owned();
    assert_eq!(
        DownloadStore::entry_from_row(unknown.clone()).unwrap_err(),
        "Download database contains an invalid status: paused"
    );
    let text = "Conversion error from type Text at index: 10, Download database contains an invalid status: paused";
    assert_eq!(DownloadStore::get(4, Some(unknown.clone())).unwrap_err(), text);
    assert_eq!(DownloadStore::entries_newest_first(&vec![recorded(1), unknown]).unwrap_err(), text);
    assert!(DownloadStore::get(4, None).unwrap().is_none());
    assert_eq!(DownloadStore::existing(None).unwrap_err(), "Download no longer exists.");
    assert_eq!(DownloadStore::recorded(None).unwrap_err(), "Could not read the new download record.");
    assert_eq!(DownloadStore::recorded(Some(entry)).unwrap().id, 0);
}

#[test]
fn every_status_has_a_name() {
    for (status, name) in [
        (DownloadStatus::Requested, "requested"),
        (DownloadStatus::Downloading, "downloading"),
        (DownloadStatus::Completed, "completed"),
        (DownloadStatus::Failed, "failed"),
        (DownloadStatus::Canceled, "canceled"),
        (DownloadStatus::Interrupted, "interrupted"),
    ] {
        assert_eq!(status.as_database_value(), name);
        assert_eq!(DownloadStatus::from_database_value(name).unwrap(), status);
    }
}

#[test]
fn progress_is_told_and_written_in_intervals() {
    let mut manager = DownloadManager::new();
    let mut report = |now: u64| {
        let report = manager.report_progress(3, now);
        (report.persist, report.emit)
    };
    assert_eq!(report(50), (false, false));
    assert_eq!(report(1000), (true, true));
    assert_eq!(report(1099), (false, false));
    assert_eq!(report(1100), (false, true));
    assert_eq!(report(1500), (true, true));
    assert_eq!(report(900), (false, false));
    manager.remove_active(3);
    assert!(manager.report_progress(3, 1501).persist);
}

#[test]
fn any_two_reports_are_spaced() {
    let mut manager = DownloadManager::new();
    let (mut written, mut told) = (Vec::new(), Vec::new());
    for step in 1..200u64 {
        let now = 1000 + step * 37;
        let report = manager.report_progress(5, now);
        if report.persist {
            written.push(now);
        }
        if report.emit {
            told.push(now);
        }
    }
    assert!(written.len() > 2 && told.len() > 2);
    assert!(written.windows(2).all(|pair| pair[1] - pair[0] >= 500));
    assert!(told.windows(2).all(|pair| pair[1] - pair[0] >= 100));
}

#[test]
fn shows_progress_that_is_not_written() {
    let entry = DownloadStore::entry_from_row(recorded(4)).unwrap();
    let shown = progress_preview(entry.clone(), 5, None, 77);
    assert_eq!((shown.bytes_received, shown.total_bytes, shown.updated_at), (5, Some(100), 77));
    assert_eq!(progress_preview(entry, 5, Some(9), 77).total_bytes, Some(9));
}

#[test]
fn a_chosen_place_starts_the_download() {
    let mut manager = DownloadManager::new();
    let missing = "This download is no longer in progress.";
    assert_eq!(manager.ensure_active(4).unwrap_err(), missing);
    let place = Some("/x/file.zip".to_owned());
    manager.offer(4);
    let outcome = manager.complete_pending_download(4, place, true, Some(9), 20, Some(recorded(4))).unwrap();
    assert!(outcome.watch && !outcome.cancel);
    let row = outcome.change.unwrap().unwrap();
    assert_eq!((row.status.as_str(), row.path.as_deref()), ("downloading", Some("/x/file.zip")));
    assert!(manager.ensure_active(4).is_ok());

    let changed = manager.state_changed(4, OperationState::InProgress, 1, None, 21, Some(row.clone()));
    assert!(changed.is_none() && manager.ensure_active(4).is_ok());
    let changed = manager.state_changed(4, OperationState::Completed, 9, Some(9), 22, Some(row.clone()));
    assert_eq!(changed.unwrap().unwrap().unwrap().status, "completed");
    assert_eq!(manager.ensure_active(4).unwrap_err(), missing);
    let stop = |user_canceled: bool| OperationState::Interrupted { user_canceled, reason: "r".to_owned() };
    let canceled = manager.state_changed(4, stop(true), 1, None, 22, Some(row.clone())).unwrap();
    assert_eq!(canceled.unwrap().unwrap().status, "canceled");
    let failed = manager.state_changed(4, stop(false), 1, None, 22, Some(row)).unwrap().unwrap().unwrap();
    assert_eq!((failed.status.as_str(), failed.interrupt_reason.as_deref()), ("failed", Some("r")));
    let refused = manager.state_changed(4, OperationState::Completed, u64::MAX, None, 22, None).unwrap();
    assert_eq!(refused.unwrap_err(), RANGE);
}

#[test]
fn a_download_without_a_place_is_dropped() {
    let mut manager = DownloadManager::new();
    manager.offer(4);
    let outcome = manager.complete_pending_download(4, None, false, Some(9), 20, Some(recorded(4))).unwrap();
    assert!(outcome.cancel && !outcome.watch);
    assert_eq!(outcome.change.unwrap().unwrap().interrupt_reason.as_deref(), Some("save_dialog_canceled"));
    let place = Some("/x".to_owned());
    manager.offer(4);
    let outcome = manager.complete_pending_download(4, place, false, Some(9), 20, Some(recorded(4))).unwrap();
    assert!(outcome.cancel && !outcome.watch);
    let row = outcome.change.unwrap().unwrap();
    assert_eq!((row.status.as_str(), row.interrupt_reason.as_deref()), ("failed", Some("destination_error")));
    assert_eq!((row.bytes_received, row.total_bytes), (0, Some(9)));
    assert!(manager.ensure_active(4).is_err());
}

#[test]
fn a_save_dialog_is_answered_once() {
    let mut manager = DownloadManager::new();
    let place = Some("/x/file.zip".to_owned());
    assert!(manager.complete_pending_download(4, place.clone(), true, None, 20, Some(recorded(4))).is_none());
    assert!(manager.ensure_active(4).is_err());
    manager.offer(4);
    manager.offer(5);
    assert!(manager.complete_pending_download(4, None, false, None, 20, Some(recorded(4))).is_some());
    assert!(manager.complete_pending_download(4, place, true, None, 21, Some(recorded(4))).is_none());
    assert!(manager.ensure_active(4).is_err());
    assert!(manager.take_pending(5));
    assert!(!manager.take_pending(5));
}

#[test]
fn records_what_the_web_view_reports() {
    let report = ReportedDownload {
        url: "https://example.com/f".to_owned(),
        source_page_url: None,
        file_name: Some("a:b.zip".to_owned()),
        mime_type: Some(String::new()),
        content_disposition: Some("attachment".to_owned()),
        total: -1,
    };
    let row = download_starting(report, 6).unwrap();
    assert_eq!(row.suggested_filename, "a_b.zip");
    assert_eq!((row.mime_type, row.content_disposition.as_deref()), (None, Some("attachment")));
    assert_eq!((row.total_bytes, row.requested_at, row.status.as_str()), (None, 6, "requested"));
    assert_eq!((operation_received(-3), operation_received(3)), (0, 3));
    assert_eq!((operation_total(-1), operation_total(0)), (None, Some(0)));
}

#[test]
fn opens_completed_downloads_only() {
    let running = DownloadStore::begin(4, "/x", 11, Some(recorded(4))).unwrap().unwrap();
    let done = DownloadStore::finish(4, DownloadStatus::Completed, 1, None, None, 12, Some(running.clone()));
    let done = DownloadStore::entry_from_row(done.unwrap().unwrap()).unwrap();
    let running = DownloadStore::entry_from_row(running).unwrap();
    assert_eq!(completed_path(Some(done.clone())).unwrap(), "/x");
    assert_eq!(completed_path(Some(running)).unwrap_err(), "Only completed downloads can be opened.");
    assert_eq!(completed_path(None).unwrap_err(), "Download no longer exists.");
    let mut lost = done;
    lost.path = None;
    assert_eq!(completed_path(Some(lost)).unwrap_err(), "This download has no saved path.");
    assert_eq!(open_completed_download("/x", true, false).unwrap(), "/x");
    assert_eq!(open_completed_download("/x", true, true).unwrap(), "/select,/x");
    assert_eq!(
        open_completed_download("/x", false, true).unwrap_err(),
        "The downloaded file is no longer at its saved location."
    );
}
