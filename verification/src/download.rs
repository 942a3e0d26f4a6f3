//! The download ledger: requests, their progress and their end.

use crate::text::{opt_text, same_text};
use vstd::prelude::*;

verus! {

/// How far a download has come.
#[derive(Clone, Copy, Debug, PartialEq, Eq, Structural)]
pub enum DownloadStatus {
    Requested,
    Downloading,
    Completed,
    Failed,
    Canceled,
    Interrupted,
}

impl DownloadStatus {
    /// The text that stands for the status in the database.
    pub open spec fn name(self) -> Seq<char> {
        match self {
            DownloadStatus::Requested => "requested"@,
            DownloadStatus::Downloading => "downloading"@,
            DownloadStatus::Completed => "completed"@,
            DownloadStatus::Failed => "failed"@,
            DownloadStatus::Canceled => "canceled"@,
            DownloadStatus::Interrupted => "interrupted"@,
        }
    }

    /// The status that a database text stands for.
    pub open spec fn of_name(name: Seq<char>) -> Option<DownloadStatus> {
        if name == "requested"@ {
            Some(DownloadStatus::Requested)
        } else if name == "downloading"@ {
            Some(DownloadStatus::Downloading)
        } else if name == "completed"@ {
            Some(DownloadStatus::Completed)
        } else if name == "failed"@ {
            Some(DownloadStatus::Failed)
        } else if name == "canceled"@ {
            Some(DownloadStatus::Canceled)
        } else if name == "interrupted"@ {
            Some(DownloadStatus::Interrupted)
        } else {
            None
        }
    }

    pub fn as_database_value(self) -> (r: &'static str)
        ensures
            r@ == self.name(),
    {
        match self {
            DownloadStatus::Requested => "requested",
            DownloadStatus::Downloading => "downloading",
            DownloadStatus::Completed => "completed",
            DownloadStatus::Failed => "failed",
            DownloadStatus::Canceled => "canceled",
            DownloadStatus::Interrupted => "interrupted",
        }
    }

    pub fn from_database_value(value: &str) -> (r: Result<DownloadStatus, String>)
        ensures
            match r {
                Ok(status) => DownloadStatus::of_name(value@) == Some(status),
                Err(message) => {
                    &&& DownloadStatus::of_name(value@) is None
                    &&& message@ == "Download database contains an invalid status: "@ + value@
                },
            },
    {
        if same_text(value, "requested") {
            Ok(DownloadStatus::Requested)
        } else if same_text(value, "downloading") {
            Ok(DownloadStatus::Downloading)
        } else if same_text(value, "completed") {
            Ok(DownloadStatus::Completed)
        } else if same_text(value, "failed") {
            Ok(DownloadStatus::Failed)
        } else if same_text(value, "canceled") {
            Ok(DownloadStatus::Canceled)
        } else if same_text(value, "interrupted") {
            Ok(DownloadStatus::Interrupted)
        } else {
            let mut message: String = "Download database contains an invalid status: ".to_owned();
            message.append(value);
            Err(message)
        }
    }
}

/// Reading a stored status gives back the status that was stored.
pub proof fn stored_download_status_reads_back(status: DownloadStatus)
    ensures
        DownloadStatus::of_name(status.name()) == Some(status),
{
    reveal_strlit("requested");
    reveal_strlit("downloading");
    reveal_strlit("completed");
    reveal_strlit("failed");
    reveal_strlit("canceled");
    reveal_strlit("interrupted");
    assert("requested"@.len() == 9);
    assert("downloading"@.len() == 11);
    assert("completed"@.len() == 9);
    assert("failed"@.len() == 6);
    assert("canceled"@.len() == 8);
    assert("interrupted"@.len() == 11);
    assert("requested"@[0] == 'r');
    assert("completed"@[0] == 'c');
    assert("downloading"@[0] == 'd');
    assert("interrupted"@[0] == 'i');
}

/// One download.
#[derive(Debug)]
pub struct DownloadEntry {
    pub id: u64,
    pub requested_at: u64,
    pub updated_at: u64,
    pub completed_at: Option<u64>,
    pub url: String,
    pub source_page_url: Option<String>,
    pub suggested_filename: String,
    pub path: Option<String>,
    pub mime_type: Option<String>,
    pub content_disposition: Option<String>,
    pub status: DownloadStatus,
    pub bytes_received: u64,
    pub total_bytes: Option<u64>,
    pub interrupt_reason: Option<String>,
}

/// A download with its texts as sequences of characters.
#[verifier::ext_equal]
pub struct DownloadEntryView {
    pub id: u64,
    pub requested_at: u64,
    pub updated_at: u64,
    pub completed_at: Option<u64>,
    pub url: Seq<char>,
    pub source_page_url: Option<Seq<char>>,
    pub suggested_filename: Seq<char>,
    pub path: Option<Seq<char>>,
    pub mime_type: Option<Seq<char>>,
    pub content_disposition: Option<Seq<char>>,
    pub status: DownloadStatus,
    pub bytes_received: u64,
    pub total_bytes: Option<u64>,
    pub interrupt_reason: Option<Seq<char>>,
}

impl View for DownloadEntry {
    type V = DownloadEntryView;

    open spec fn view(&self) -> DownloadEntryView {
        DownloadEntryView {
            id: self.id,
            requested_at: self.requested_at,
            updated_at: self.updated_at,
            completed_at: self.completed_at,
            url: self.url@,
            source_page_url: opt_text(self.source_page_url),
            suggested_filename: self.suggested_filename@,
            path: opt_text(self.path),
            mime_type: opt_text(self.mime_type),
            content_disposition: opt_text(self.content_disposition),
            status: self.status,
            bytes_received: self.bytes_received,
            total_bytes: self.total_bytes,
            interrupt_reason: opt_text(self.interrupt_reason),
        }
    }
}

impl Clone for DownloadEntry {
    fn clone(&self) -> (r: DownloadEntry)
        ensures
            r@ == self@,
    {
        DownloadEntry {
            id: self.id,
            requested_at: self.requested_at,
            updated_at: self.updated_at,
            completed_at: self.completed_at,
            url: self.url.clone(),
            source_page_url: self.source_page_url.clone(),
            suggested_filename: self.suggested_filename.clone(),
            path: self.path.clone(),
            mime_type: self.mime_type.clone(),
            content_disposition: self.content_disposition.clone(),
            status: self.status,
            bytes_received: self.bytes_received,
            total_bytes: self.total_bytes,
            interrupt_reason: self.interrupt_reason.clone(),
        }
    }
}

/// The columns of one database row of the download ledger, as SQLite holds them.
#[derive(Debug)]
pub struct DownloadRow {
    pub id: i64,
    pub requested_at: i64,
    pub updated_at: i64,
    pub completed_at: Option<i64>,
    pub url: String,
    pub source_page_url: Option<String>,
    pub suggested_filename: String,
    pub path: Option<String>,
    pub mime_type: Option<String>,
    pub content_disposition: Option<String>,
    pub status: String,
    pub bytes_received: i64,
    pub total_bytes: Option<i64>,
    pub interrupt_reason: Option<String>,
}

/// A database row with its texts as sequences of characters.
#[verifier::ext_equal]
pub struct DownloadRowView {
    pub id: i64,
    pub requested_at: i64,
    pub updated_at: i64,
    pub completed_at: Option<i64>,
    pub url: Seq<char>,
    pub source_page_url: Option<Seq<char>>,
    pub suggested_filename: Seq<char>,
    pub path: Option<Seq<char>>,
    pub mime_type: Option<Seq<char>>,
    pub content_disposition: Option<Seq<char>>,
    pub status: Seq<char>,
    pub bytes_received: i64,
    pub total_bytes: Option<i64>,
    pub interrupt_reason: Option<Seq<char>>,
}

impl View for DownloadRow {
    type V = DownloadRowView;

    open spec fn view(&self) -> DownloadRowView {
        DownloadRowView {
            id: self.id,
            requested_at: self.requested_at,
            updated_at: self.updated_at,
            completed_at: self.completed_at,
            url: self.url@,
            source_page_url: opt_text(self.source_page_url),
            suggested_filename: self.suggested_filename@,
            path: opt_text(self.path),
            mime_type: opt_text(self.mime_type),
            content_disposition: opt_text(self.content_disposition),
            status: self.status@,
            bytes_received: self.bytes_received,
            total_bytes: self.total_bytes,
            interrupt_reason: opt_text(self.interrupt_reason),
        }
    }
}

impl Clone for DownloadRow {
    fn clone(&self) -> (r: DownloadRow)
        ensures
            r@ == self@,
    {
        DownloadRow {
            id: self.id,
            requested_at: self.requested_at,
            updated_at: self.updated_at,
            completed_at: self.completed_at,
            url: self.url.clone(),
            source_page_url: self.source_page_url.clone(),
            suggested_filename: self.suggested_filename.clone(),
            path: self.path.clone(),
            mime_type: self.mime_type.clone(),
            content_disposition: self.content_disposition.clone(),
            status: self.status.clone(),
            bytes_received: self.bytes_received,
            total_bytes: self.total_bytes,
            interrupt_reason: self.interrupt_reason.clone(),
        }
    }
}

/// The view of an optional row.
pub open spec fn download_row_view(o: Option<DownloadRow>) -> Option<DownloadRowView> {
    match o {
        Some(row) => Some(row@),
        None => None,
    }
}

/// The views of rows.
pub open spec fn download_row_views(rows: Seq<DownloadRow>) -> Seq<DownloadRowView> {
    Seq::new(rows.len(), |i: int| rows[i]@)
}

/// The view of an optional download.
pub open spec fn download_view(o: Option<DownloadEntry>) -> Option<DownloadEntryView> {
    match o {
        Some(entry) => Some(entry@),
        None => None,
    }
}

/// A number of a row, or nothing in place of a negative one.
pub open spec fn unsigned(value: i64) -> Option<u64> {
    if value >= 0 {
        Some(value as u64)
    } else {
        None
    }
}

/// A number of a row, or zero in place of a negative one.
pub open spec fn unsigned_or_zero(value: i64) -> u64 {
    if value >= 0 {
        value as u64
    } else {
        0
    }
}

/// An optional number of a row, or nothing in place of a negative one.
pub open spec fn opt_unsigned(value: Option<i64>) -> Option<u64> {
    match value {
        Some(number) => unsigned(number),
        None => None,
    }
}

/// The number, or nothing in place of a negative one.
pub fn as_unsigned(value: i64) -> (r: Option<u64>)
    ensures
        r == unsigned(value),
{
    if value >= 0 {
        Some(value as u64)
    } else {
        None
    }
}

/// The number, or zero in place of a negative one.
pub fn as_unsigned_or_zero(value: i64) -> (r: u64)
    ensures
        r == unsigned_or_zero(value),
{
    if value >= 0 {
        value as u64
    } else {
        0
    }
}

/// The number as SQLite stores it, if it fits.
pub fn db_integer(value: u64) -> (r: Result<i64, String>)
    ensures
        match r {
            Ok(stored) => stored == value,
            Err(message) => value > i64::MAX && message@ == "Value exceeds SQLite's integer range."@,
        },
{
    if value <= i64::MAX as u64 {
        Ok(value as i64)
    } else {
        Err("Value exceeds SQLite's integer range.".to_owned())
    }
}

/// Whether SQLite's integers hold a number.
pub open spec fn fits(value: u64) -> bool {
    value <= i64::MAX
}

/// Whether SQLite's integers hold an optional number.
pub open spec fn opt_fits(value: Option<u64>) -> bool {
    match value {
        Some(number) => number <= i64::MAX,
        None => true,
    }
}

/// An optional number as SQLite stores it.
pub open spec fn opt_stored(value: Option<u64>) -> Option<i64> {
    match value {
        Some(number) => Some(number as i64),
        None => None,
    }
}

/// The optional number as SQLite stores it, if it fits.
pub fn optional_db_integer(value: Option<u64>) -> (r: Result<Option<i64>, String>)
    ensures
        match r {
            Ok(stored) => opt_fits(value) && stored == opt_stored(value),
            Err(message) => !opt_fits(value) && message@ == "Value exceeds SQLite's integer range."@,
        },
{
    match value {
        Some(number) => match db_integer(number) {
            Ok(stored) => Ok(Some(stored)),
            Err(message) => Err(message),
        },
        None => Ok(None),
    }
}

/// The download that a row stands for, or the message about its status.
pub open spec fn download_of_row(row: DownloadRowView) -> Result<DownloadEntryView, Seq<char>> {
    match DownloadStatus::of_name(row.status) {
        None => Err("Download database contains an invalid status: "@ + row.status),
        Some(status) => Ok(
            DownloadEntryView {
                id: unsigned_or_zero(row.id),
                requested_at: unsigned_or_zero(row.requested_at),
                updated_at: unsigned_or_zero(row.updated_at),
                completed_at: opt_unsigned(row.completed_at),
                url: row.url,
                source_page_url: row.source_page_url,
                suggested_filename: row.suggested_filename,
                path: row.path,
                mime_type: row.mime_type,
                content_disposition: row.content_disposition,
                status,
                bytes_received: unsigned_or_zero(row.bytes_received),
                total_bytes: opt_unsigned(row.total_bytes),
                interrupt_reason: row.interrupt_reason,
            },
        ),
    }
}

/// The row after the browser has been closed and opened again, if that changes it: work that was
/// not done is interrupted.
pub open spec fn interruption(row: DownloadRowView, now: u64) -> Option<DownloadRowView> {
    if row.status == "requested"@ || row.status == "downloading"@ {
        Some(
            DownloadRowView {
                status: "interrupted"@,
                updated_at: now as i64,
                completed_at: Some(now as i64),
                interrupt_reason: Some("browser_closed"@),
                ..row
            },
        )
    } else {
        None
    }
}

/// The rows that change when the browser is opened again, in their order.
pub open spec fn interruptions(rows: Seq<DownloadRowView>, now: u64) -> Seq<DownloadRowView>
    decreases rows.len(),
{
    if rows.len() == 0 {
        Seq::empty()
    } else {
        let before = interruptions(rows.drop_last(), now);
        match interruption(rows.last(), now) {
            Some(changed) => before.push(changed),
            None => before,
        }
    }
}

/// The row of a new request; SQLite has not given it an ID yet.
pub open spec fn request_row(
    url: Seq<char>,
    source_page_url: Option<Seq<char>>,
    suggested_filename: Seq<char>,
    mime_type: Option<Seq<char>>,
    content_disposition: Option<Seq<char>>,
    total_bytes: Option<u64>,
    now: u64,
) -> DownloadRowView {
    DownloadRowView {
        id: 0,
        requested_at: now as i64,
        updated_at: now as i64,
        completed_at: None,
        url,
        source_page_url,
        suggested_filename,
        path: None,
        mime_type,
        content_disposition,
        status: "requested"@,
        bytes_received: 0,
        total_bytes: opt_stored(total_bytes),
        interrupt_reason: None,
    }
}

/// The row to write when the download `id` enters a state at `now`. A path is kept where none is
/// given; a reason is not.
pub open spec fn state_change(
    stored: Option<DownloadRowView>,
    id: u64,
    status: DownloadStatus,
    path: Option<Seq<char>>,
    reason: Option<Seq<char>>,
    completed: bool,
    now: u64,
) -> Option<DownloadRowView> {
    match stored {
        Some(row) => if row.id == id {
            Some(
                DownloadRowView {
                    status: status.name(),
                    path: match path {
                        Some(_) => path,
                        None => row.path,
                    },
                    interrupt_reason: reason,
                    updated_at: now as i64,
                    completed_at: if completed {
                        Some(now as i64)
                    } else {
                        None
                    },
                    ..row
                },
            )
        } else {
            None
        },
        None => None,
    }
}

/// A total that replaces a stored one where it is known.
pub open spec fn total_or(total: Option<u64>, stored: Option<i64>) -> Option<i64> {
    match total {
        Some(number) => Some(number as i64),
        None => stored,
    }
}

/// The row to write when the download `id` has received bytes by `now`: only a running download
/// progresses.
pub open spec fn progress_change(
    stored: Option<DownloadRowView>,
    id: u64,
    received: u64,
    total: Option<u64>,
    now: u64,
) -> Option<DownloadRowView> {
    match stored {
        Some(row) => if row.id == id && row.status == "downloading"@ {
            Some(
                DownloadRowView {
                    bytes_received: received as i64,
                    total_bytes: total_or(total, row.total_bytes),
                    updated_at: now as i64,
                    ..row
                },
            )
        } else {
            None
        },
        None => None,
    }
}

/// The row to write when the download `id` ends at `now`.
pub open spec fn end_change(
    stored: Option<DownloadRowView>,
    id: u64,
    status: DownloadStatus,
    received: u64,
    total: Option<u64>,
    reason: Option<Seq<char>>,
    now: u64,
) -> Option<DownloadRowView> {
    match stored {
        Some(row) => if row.id == id {
            Some(
                DownloadRowView {
                    status: status.name(),
                    bytes_received: received as i64,
                    total_bytes: total_or(total, row.total_bytes),
                    interrupt_reason: reason,
                    updated_at: now as i64,
                    completed_at: Some(now as i64),
                    ..row
                },
            )
        } else {
            None
        },
        None => None,
    }
}

/// Every row of the download ledger, the newest first.
pub const ALL_DOWNLOADS: &'static str = "SELECT id, requested_at, updated_at, completed_at, url, source_page_url, suggested_filename, path, mime_type, content_disposition, status, bytes_received, total_bytes, interrupt_reason FROM download_entries ORDER BY requested_at DESC, id DESC";

/// The row of one download.
pub const ONE_DOWNLOAD: &'static str = "SELECT id, requested_at, updated_at, completed_at, url, source_page_url, suggested_filename, path, mime_type, content_disposition, status, bytes_received, total_bytes, interrupt_reason FROM download_entries WHERE id = ?1";

/// The rules of the download ledger: from the rows that the database holds to the rows that it
/// is to hold.
pub struct DownloadStore {}

/// The message about a number that SQLite cannot hold.
pub open spec fn out_of_range(message: Seq<char>) -> bool {
    message == "Value exceeds SQLite's integer range."@
}

impl DownloadStore {
    /// The rows to write when the ledger is opened at `now`, from all rows that it holds.
    pub fn open(rows: &Vec<DownloadRow>, now: u64) -> (r: Result<Vec<DownloadRow>, String>)
        ensures
            match r {
                Ok(changed) => {
                    &&& fits(now)
                    &&& download_row_views(changed@) == interruptions(download_row_views(rows@), now)
                },
                Err(message) => !fits(now) && out_of_range(message@),
            },
    {
        let time: i64 = match db_integer(now) {
            Ok(value) => value,
            Err(message) => {
                return Err(message);
            },
        };
        let ghost all = download_row_views(rows@);
        let mut changed: Vec<DownloadRow> = Vec::new();
        let mut i: usize = 0;
        assert(download_row_views(changed@) =~= interruptions(all.take(0), now));
        while i < rows.len()
            invariant
                i <= rows@.len(),
                time == now,
                all == download_row_views(rows@),
                download_row_views(changed@) == interruptions(all.take(i as int), now),
            decreases rows@.len() - i,
        {
            let row: &DownloadRow = &rows[i];
            let ghost before = changed@;
            assert(all.take(i + 1).drop_last() =~= all.take(i as int));
            assert(all.take(i + 1).last() == row@);
            if same_text(row.status.as_str(), "requested") || same_text(row.status.as_str(), "downloading") {
                let mut next: DownloadRow = row.clone();
                next.status = "interrupted".to_owned();
                next.updated_at = time;
                next.completed_at = Some(time);
                next.interrupt_reason = Some("browser_closed".to_owned());
                assert(interruption(row@, now) == Some(next@));
                changed.push(next);
                assert(download_row_views(changed@) =~= download_row_views(before).push(next@));
            }
            i = i + 1;
        }
        assert(all.take(i as int) =~= all);
        Ok(changed)
    }

    /// The row of a new request at `now`.
    pub fn record_request(
        url: &str,
        source_page_url: Option<String>,
        suggested_filename: &str,
        mime_type: Option<String>,
        content_disposition: Option<String>,
        total_bytes: Option<u64>,
        now: u64,
    ) -> (r: Result<DownloadRow, String>)
        ensures
            match r {
                Ok(row) => {
                    &&& fits(now) && opt_fits(total_bytes)
                    &&& row@ == request_row(
                        url@,
                        opt_text(source_page_url),
                        suggested_filename@,
                        opt_text(mime_type),
                        opt_text(content_disposition),
                        total_bytes,
                        now,
                    )
                },
                Err(message) => !(fits(now) && opt_fits(total_bytes)) && out_of_range(message@),
            },
    {
        let time: i64 = match db_integer(now) {
            Ok(value) => value,
            Err(message) => {
                return Err(message);
            },
        };
        let total: Option<i64> = match optional_db_integer(total_bytes) {
            Ok(value) => value,
            Err(message) => {
                return Err(message);
            },
        };
        Ok(
            DownloadRow {
                id: 0,
                requested_at: time,
                updated_at: time,
                completed_at: None,
                url: url.to_owned(),
                source_page_url,
                suggested_filename: suggested_filename.to_owned(),
                path: None,
                mime_type,
                content_disposition,
                status: "requested".to_owned(),
                bytes_received: 0,
                total_bytes: total,
                interrupt_reason: None,
            },
        )
    }

    /// The ID of a new request, once SQLite has stored its row.
    pub fn request_id(row_id: i64) -> (r: Result<u64, String>)
        ensures
            match r {
                Ok(id) => id == row_id,
                Err(message) => row_id < 0 && message@ == "Download database generated an invalid ID."@,
            },
    {
        match as_unsigned(row_id) {
            Some(id) => Ok(id),
            None => Err("Download database generated an invalid ID.".to_owned()),
        }
    }

    /// The new request as the database gives it back.
    pub fn recorded(found: Option<DownloadEntry>) -> (r: Result<DownloadEntry, String>)
        ensures
            match r {
                Ok(entry) => found == Some(entry),
                Err(message) => found is None && message@ == "Could not read the new download record."@,
            },
    {
        match found {
            Some(entry) => Ok(entry),
            None => Err("Could not read the new download record.".to_owned()),
        }
    }

    /// A download as the database gives it back after a change.
    pub fn existing(found: Option<DownloadEntry>) -> (r: Result<DownloadEntry, String>)
        ensures
            match r {
                Ok(entry) => found == Some(entry),
                Err(message) => found is None && message@ == "Download no longer exists."@,
            },
    {
        match found {
            Some(entry) => Ok(entry),
            None => Err("Download no longer exists.".to_owned()),
        }
    }

    /// The row to write, if any, when the download `id` enters a state at `now`. `stored` is the
    /// row that the database holds for it.
    fn update_state(
        id: u64,
        status: DownloadStatus,
        path: Option<String>,
        reason: Option<String>,
        completed: bool,
        now: u64,
        stored: Option<DownloadRow>,
    ) -> (r: Result<Option<DownloadRow>, String>)
        ensures
            match r {
                Ok(change) => {
                    &&& fits(now) && fits(id)
                    &&& download_row_view(change) == state_change(
                        download_row_view(stored),
                        id,
                        status,
                        opt_text(path),
                        opt_text(reason),
                        completed,
                        now,
                    )
                },
                Err(message) => !(fits(now) && fits(id)) && out_of_range(message@),
            },
    {
        let time: i64 = match db_integer(now) {
            Ok(value) => value,
            Err(message) => {
                return Err(message);
            },
        };
        let key: i64 = match db_integer(id) {
            Ok(value) => value,
            Err(message) => {
                return Err(message);
            },
        };
        match stored {
            Some(row) => {
                if row.id != key {
                    return Ok(None);
                }
                let mut changed: DownloadRow = row;
                changed.status = status.as_database_value().to_owned();
                if path.is_some() {
                    changed.path = path;
                }
                changed.interrupt_reason = reason;
                changed.updated_at = time;
                changed.completed_at = if completed {
                    Some(time)
                } else {
                    None
                };
                Ok(Some(changed))
            },
            None => Ok(None),
        }
    }

    /// The row to write, if any, when the download `id` begins at `now` to fill the file at
    /// `path`.
    pub fn begin(id: u64, path: &str, now: u64, stored: Option<DownloadRow>) -> (r: Result<Option<DownloadRow>, String>)
        ensures
            match r {
                Ok(change) => {
                    &&& fits(now) && fits(id)
                    &&& download_row_view(change) == state_change(
                        download_row_view(stored),
                        id,
                        DownloadStatus::Downloading,
                        Some(path@),
                        None,
                        false,
                        now,
                    )
                    &&& download_row_view(change) == begun(download_row_view(stored), id, path@, now)
                },
                Err(message) => !(fits(now) && fits(id)) && out_of_range(message@),
            },
    {
        DownloadStore::update_state(
            id,
            DownloadStatus::Downloading,
            Some(path.to_owned()),
            None,
            false,
            now,
            stored,
        )
    }

    /// The row to write, if any, when the user leaves the save dialog of the download `id` at
    /// `now` without a choice.
    pub fn cancel_before_start(id: u64, now: u64, stored: Option<DownloadRow>) -> (r: Result<
        Option<DownloadRow>,
        String,
    >)
        ensures
            match r {
                Ok(change) => {
                    &&& fits(now) && fits(id)
                    &&& download_row_view(change) == state_change(
                        download_row_view(stored),
                        id,
                        DownloadStatus::Canceled,
                        None,
                        Some("save_dialog_canceled"@),
                        true,
                        now,
                    )
                    &&& download_row_view(change) == dismissed(download_row_view(stored), id, now)
                },
                Err(message) => !(fits(now) && fits(id)) && out_of_range(message@),
            },
    {
        DownloadStore::update_state(
            id,
            DownloadStatus::Canceled,
            None,
            Some("save_dialog_canceled".to_owned()),
            true,
            now,
            stored,
        )
    }

    /// The row to write, if any, when the download `id` has received bytes by `now`.
    pub fn update_progress(
        id: u64,
        received: u64,
        total: Option<u64>,
        now: u64,
        stored: Option<DownloadRow>,
    ) -> (r: Result<Option<DownloadRow>, String>)
        ensures
            match r {
                Ok(change) => {
                    &&& fits(received) && opt_fits(total) && fits(now) && fits(id)
                    &&& download_row_view(change) == progress_change(
                        download_row_view(stored),
                        id,
                        received,
                        total,
                        now,
                    )
                },
                Err(message) => {
                    &&& !(fits(received) && opt_fits(total) && fits(now) && fits(id))
                    &&& out_of_range(message@)
                },
            },
    {
        let bytes: i64 = match db_integer(received) {
            Ok(value) => value,
            Err(message) => {
                return Err(message);
            },
        };
        let sum: Option<i64> = match optional_db_integer(total) {
            Ok(value) => value,
            Err(message) => {
                return Err(message);
            },
        };
        let time: i64 = match db_integer(now) {
            Ok(value) => value,
            Err(message) => {
                return Err(message);
            },
        };
        let key: i64 = match db_integer(id) {
            Ok(value) => value,
            Err(message) => {
                return Err(message);
            },
        };
        match stored {
            Some(row) => {
                if row.id != key || !same_text(row.status.as_str(), "downloading") {
                    return Ok(None);
                }
                let mut changed: DownloadRow = row;
                changed.bytes_received = bytes;
                if sum.is_some() {
                    changed.total_bytes = sum;
                }
                changed.updated_at = time;
                Ok(Some(changed))
            },
            None => Ok(None),
        }
    }

    /// The row to write, if any, when the download `id` ends at `now`.
    pub fn finish(
        id: u64,
        status: DownloadStatus,
        received: u64,
        total: Option<u64>,
        reason: Option<String>,
        now: u64,
        stored: Option<DownloadRow>,
    ) -> (r: Result<Option<DownloadRow>, String>)
        ensures
            match r {
                Ok(change) => {
                    &&& fits(received) && opt_fits(total) && fits(now) && fits(id)
                    &&& download_row_view(change) == end_change(
                        download_row_view(stored),
                        id,
                        status,
                        received,
                        total,
                        opt_text(reason),
                        now,
                    )
                },
                Err(message) => {
                    &&& !(fits(received) && opt_fits(total) && fits(now) && fits(id))
                    &&& out_of_range(message@)
                },
            },
    {
        let bytes: i64 = match db_integer(received) {
            Ok(value) => value,
            Err(message) => {
                return Err(message);
            },
        };
        let sum: Option<i64> = match optional_db_integer(total) {
            Ok(value) => value,
            Err(message) => {
                return Err(message);
            },
        };
        let time: i64 = match db_integer(now) {
            Ok(value) => value,
            Err(message) => {
                return Err(message);
            },
        };
        let key: i64 = match db_integer(id) {
            Ok(value) => value,
            Err(message) => {
                return Err(message);
            },
        };
        match stored {
            Some(row) => {
                if row.id != key {
                    return Ok(None);
                }
                let mut changed: DownloadRow = row;
                changed.status = status.as_database_value().to_owned();
                changed.bytes_received = bytes;
                if sum.is_some() {
                    changed.total_bytes = sum;
                }
                changed.interrupt_reason = reason;
                changed.updated_at = time;
                changed.completed_at = Some(time);
                Ok(Some(changed))
            },
            None => Ok(None),
        }
    }

    /// The download that a row stands for.
    pub fn entry_from_row(row: DownloadRow) -> (r: Result<DownloadEntry, String>)
        ensures
            match r {
                Ok(entry) => download_of_row(row@) == Ok::<DownloadEntryView, Seq<char>>(entry@),
                Err(message) => download_of_row(row@) == Err::<DownloadEntryView, Seq<char>>(message@),
            },
    {
        match DownloadStatus::from_database_value(row.status.as_str()) {
            Ok(status) => Ok(
                DownloadEntry {
                    id: as_unsigned_or_zero(row.id),
                    requested_at: as_unsigned_or_zero(row.requested_at),
                    updated_at: as_unsigned_or_zero(row.updated_at),
                    completed_at: match row.completed_at {
                        Some(number) => as_unsigned(number),
                        None => None,
                    },
                    url: row.url,
                    source_page_url: row.source_page_url,
                    suggested_filename: row.suggested_filename,
                    path: row.path,
                    mime_type: row.mime_type,
                    content_disposition: row.content_disposition,
                    status,
                    bytes_received: as_unsigned_or_zero(row.bytes_received),
                    total_bytes: match row.total_bytes {
                        Some(number) => as_unsigned(number),
                        None => None,
                    },
                    interrupt_reason: row.interrupt_reason,
                },
            ),
            Err(message) => Err(message),
        }
    }

    /// The download `id`, from the row that the database holds for it.
    pub fn get(id: u64, stored: Option<DownloadRow>) -> (r: Result<Option<DownloadEntry>, String>)
        ensures
            match r {
                Ok(found) => fits(id) && match stored {
                    Some(row) => found is Some && download_of_row(row@) == Ok::<DownloadEntryView, Seq<char>>(
                        found->0@,
                    ),
                    None => found is None,
                },
                Err(message) => if fits(id) {
                    &&& stored is Some
                    &&& download_of_row(stored->0@) is Err
                    &&& message@ == unreadable(download_of_row(stored->0@)->Err_0)
                } else {
                    out_of_range(message@)
                },
            },
    {
        match db_integer(id) {
            Ok(_) => {},
            Err(message) => {
                return Err(message);
            },
        }
        match stored {
            Some(row) => match DownloadStore::entry_from_row(row) {
                Ok(entry) => Ok(Some(entry)),
                Err(message) => Err(row_error(message.as_str())),
            },
            None => Ok(None),
        }
    }

    /// The downloads that rows stand for, in the order of the rows, or the message about the
    /// first row that stands for none.
    pub fn entries_newest_first(rows: &Vec<DownloadRow>) -> (r: Result<Vec<DownloadEntry>, String>)
        ensures
            match r {
                Ok(entries) => {
                    &&& entries@.len() == rows@.len()
                    &&& forall|i: int|
                        0 <= i < rows@.len() ==> download_of_row(#[trigger] rows@[i]@) == Ok::<
                            DownloadEntryView,
                            Seq<char>,
                        >(entries@[i]@)
                },
                Err(message) => exists|i: int|
                    {
                        &&& 0 <= i < rows@.len()
                        &&& download_of_row(#[trigger] rows@[i]@) is Err
                        &&& message@ == unreadable(download_of_row(rows@[i]@)->Err_0)
                        &&& forall|j: int| 0 <= j < i ==> download_of_row(#[trigger] rows@[j]@) is Ok
                    },
            },
    {
        let mut entries: Vec<DownloadEntry> = Vec::new();
        let mut i: usize = 0;
        while i < rows.len()
            invariant
                i <= rows@.len(),
                entries@.len() == i,
                forall|j: int|
                    0 <= j < i ==> download_of_row(#[trigger] rows@[j]@) == Ok::<DownloadEntryView, Seq<char>>(
                        entries@[j]@,
                    ),
            decreases rows@.len() - i,
        {
            match DownloadStore::entry_from_row(rows[i].clone()) {
                Ok(entry) => {
                    entries.push(entry);
                },
                Err(message) => {
                    assert(download_of_row(rows@[i as int]@) is Err);
                    return Err(row_error(message.as_str()));
                },
            }
            i = i + 1;
        }
        Ok(entries)
    }
}

/// The message about a row whose status column cannot be read.
pub open spec fn unreadable(message: Seq<char>) -> Seq<char> {
    "Conversion error from type Text at index: 10, "@ + message
}

/// The message about a row whose status column cannot be read, as SQLite's errors are worded.
fn row_error(message: &str) -> (r: String)
    ensures
        r@ == unreadable(message@),
{
    let mut text: String = "Conversion error from type Text at index: 10, ".to_owned();
    text.append(message);
    text
}

/// The row of a download that begins to fill the file at `path`.
pub open spec fn begun(stored: Option<DownloadRowView>, id: u64, path: Seq<char>, now: u64) -> Option<DownloadRowView> {
    state_change(stored, id, DownloadStatus::Downloading, Some(path), None, false, now)
}

/// The row of a download whose save dialog is left without a choice.
pub open spec fn dismissed(stored: Option<DownloadRowView>, id: u64, now: u64) -> Option<DownloadRowView> {
    state_change(stored, id, DownloadStatus::Canceled, None, Some("save_dialog_canceled"@), true, now)
}

/// Whether two rows are of the same request: what was asked for, from where and when.
pub open spec fn same_request(a: DownloadRowView, b: DownloadRowView) -> bool {
    &&& a.id == b.id
    &&& a.requested_at == b.requested_at
    &&& a.url == b.url
    &&& a.source_page_url == b.source_page_url
    &&& a.suggested_filename == b.suggested_filename
    &&& a.mime_type == b.mime_type
    &&& a.content_disposition == b.content_disposition
}

/// When a download ends, in whatever status, its row holds that status, the bytes that were
/// reported as received at the end, the size where one is reported, the reason and the time, and so
/// does the download that is read back from it. What was asked for and where it is saved stay.
pub proof fn ended_download_holds_what_was_reported(
    row: DownloadRowView,
    id: u64,
    status: DownloadStatus,
    received: u64,
    total: Option<u64>,
    reason: Option<Seq<char>>,
    now: u64,
)
    requires
        row.id == id,
        received <= i64::MAX && now <= i64::MAX,
        total is Some ==> total->0 <= i64::MAX,
    ensures
        end_change(Some(row), id, status, received, total, reason, now) matches Some(after) && {
            &&& same_request(after, row)
            &&& after.status == status.name()
            &&& after.bytes_received == received
            &&& total is Some ==> after.total_bytes is Some && after.total_bytes->0 == total->0
            &&& total is None ==> after.total_bytes == row.total_bytes
            &&& after.interrupt_reason == reason
            &&& after.updated_at == now
            &&& after.completed_at is Some && after.completed_at->0 == now
            &&& after.path == row.path
            &&& download_of_row(after) matches Ok(entry)
            &&& entry.status == status
            &&& entry.bytes_received == received
            &&& total is Some ==> entry.total_bytes == total
            &&& entry.interrupt_reason == reason
            &&& entry.completed_at == Some(now) && entry.updated_at == now
            &&& entry.path == row.path
        },
{
    stored_download_status_reads_back(status);
}

/// A running download that has received bytes holds them, with the size where one is reported and
/// the time, and is otherwise as it was: it still runs, and nothing says that it has ended.
pub proof fn running_download_holds_its_progress(
    row: DownloadRowView,
    id: u64,
    received: u64,
    total: Option<u64>,
    now: u64,
)
    requires
        received <= i64::MAX && now <= i64::MAX,
        total is Some ==> total->0 <= i64::MAX,
    ensures
        match progress_change(Some(row), id, received, total, now) {
            Some(after) => {
                &&& row.id == id && row.status == "downloading"@
                &&& same_request(after, row)
                &&& after.status == row.status && after.path == row.path
                &&& after.bytes_received == received
                &&& total is Some ==> after.total_bytes is Some && after.total_bytes->0 == total->0
                &&& total is None ==> after.total_bytes == row.total_bytes
                &&& after.updated_at == now
                &&& after.completed_at == row.completed_at && after.interrupt_reason == row.interrupt_reason
            },
            None => row.id != id || row.status != "downloading"@,
        },
        progress_change(None, id, received, total, now) is None,
{
}

/// A download that begins is running, is saved at the chosen path and has neither ended nor a reason
/// to. One whose save dialog is left is canceled for that reason at that time, and keeps the path
/// it had. Neither changes what was asked for or what was received.
pub proof fn save_dialog_decides_the_download(row: DownloadRowView, id: u64, path: Seq<char>, now: u64)
    requires
        row.id == id,
        now <= i64::MAX,
    ensures
        begun(Some(row), id, path, now) matches Some(after) && {
            &&& same_request(after, row)
            &&& after.status == "downloading"@
            &&& after.path == Some(path)
            &&& after.interrupt_reason is None
            &&& after.completed_at is None
            &&& after.updated_at == now
            &&& after.bytes_received == row.bytes_received && after.total_bytes == row.total_bytes
        },
        dismissed(Some(row), id, now) matches Some(after) && {
            &&& same_request(after, row)
            &&& after.status == "canceled"@
            &&& after.path == row.path
            &&& after.interrupt_reason == Some("save_dialog_canceled"@)
            &&& after.completed_at is Some && after.completed_at->0 == now
            &&& after.updated_at == now
            &&& after.bytes_received == row.bytes_received && after.total_bytes == row.total_bytes
        },
{
}

/// No change is made to a row that is not the download's, or where there is none.
pub proof fn changes_need_their_row(
    row: DownloadRowView,
    id: u64,
    status: DownloadStatus,
    path: Seq<char>,
    received: u64,
    total: Option<u64>,
    reason: Option<Seq<char>>,
    now: u64,
)
    requires
        row.id != id,
    ensures
        begun(Some(row), id, path, now) is None && begun(None, id, path, now) is None,
        dismissed(Some(row), id, now) is None && dismissed(None, id, now) is None,
        end_change(Some(row), id, status, received, total, reason, now) is None,
        end_change(None, id, status, received, total, reason, now) is None,
        progress_change(Some(row), id, received, total, now) is None,
{
}

/// A request is recorded with all that is known of it and with its time, as requested, with nothing
/// received and nowhere saved yet.
pub proof fn request_holds_what_is_known(
    url: Seq<char>,
    source_page_url: Option<Seq<char>>,
    suggested_filename: Seq<char>,
    mime_type: Option<Seq<char>>,
    content_disposition: Option<Seq<char>>,
    total_bytes: Option<u64>,
    now: u64,
)
    requires
        now <= i64::MAX,
        total_bytes is Some ==> total_bytes->0 <= i64::MAX,
    ensures
        ({
            let row = request_row(
                url,
                source_page_url,
                suggested_filename,
                mime_type,
                content_disposition,
                total_bytes,
                now,
            );
            &&& row.url == url
            &&& row.source_page_url == source_page_url
            &&& row.suggested_filename == suggested_filename
            &&& row.mime_type == mime_type
            &&& row.content_disposition == content_disposition
            &&& row.requested_at == now && row.updated_at == now
            &&& row.status == "requested"@
            &&& row.bytes_received == 0
            &&& total_bytes is Some ==> row.total_bytes is Some && row.total_bytes->0 == total_bytes->0
            &&& total_bytes is None ==> row.total_bytes is None
            &&& row.path is None && row.completed_at is None && row.interrupt_reason is None
        }),
{
}

/// Work that was not done when the browser was closed, and only that, is interrupted for this reason
/// when it is opened again. What was asked for, received and saved stays.
pub proof fn unfinished_download_is_interrupted(row: DownloadRowView, now: u64)
    requires
        now <= i64::MAX,
    ensures
        match interruption(row, now) {
            Some(after) => {
                &&& row.status == "requested"@ || row.status == "downloading"@
                &&& same_request(after, row)
                &&& after.status == "interrupted"@
                &&& after.interrupt_reason == Some("browser_closed"@)
                &&& after.updated_at == now
                &&& after.completed_at is Some && after.completed_at->0 == now
                &&& after.path == row.path
                &&& after.bytes_received == row.bytes_received && after.total_bytes == row.total_bytes
            },
            None => row.status != "requested"@ && row.status != "downloading"@,
        },
{
}

/// Every column of a row is read as the value of its name. A negative number counts as zero where a
/// number is needed, and as unknown where it is not.
pub proof fn download_columns_are_read(row: DownloadRowView)
    ensures
        match download_of_row(row) {
            Ok(entry) => {
                &&& entry.status.name() == row.status
                &&& row.id >= 0 ==> entry.id == row.id
                &&& row.requested_at >= 0 ==> entry.requested_at == row.requested_at
                &&& row.updated_at >= 0 ==> entry.updated_at == row.updated_at
                &&& row.bytes_received >= 0 ==> entry.bytes_received == row.bytes_received
                &&& row.id < 0 ==> entry.id == 0
                &&& row.requested_at < 0 ==> entry.requested_at == 0
                &&& row.updated_at < 0 ==> entry.updated_at == 0
                &&& row.bytes_received < 0 ==> entry.bytes_received == 0
                &&& entry.completed_at is Some <==> row.completed_at is Some && row.completed_at->0 >= 0
                &&& entry.completed_at is Some ==> entry.completed_at->0 == row.completed_at->0
                &&& entry.total_bytes is Some <==> row.total_bytes is Some && row.total_bytes->0 >= 0
                &&& entry.total_bytes is Some ==> entry.total_bytes->0 == row.total_bytes->0
                &&& entry.url == row.url
                &&& entry.source_page_url == row.source_page_url
                &&& entry.suggested_filename == row.suggested_filename
                &&& entry.path == row.path
                &&& entry.mime_type == row.mime_type
                &&& entry.content_disposition == row.content_disposition
                &&& entry.interrupt_reason == row.interrupt_reason
            },
            Err(message) => {
                &&& forall|status: DownloadStatus| row.status != #[trigger] status.name()
                &&& message == "Download database contains an invalid status: "@ + row.status
            },
        },
{
    assert forall|status: DownloadStatus| download_of_row(row) is Err implies row.status != #[trigger] status.name() by {
        stored_download_status_reads_back(status);
    }
}

/// The statuses are stored under the names that the database allows.
pub proof fn download_statuses_have_the_names_of_the_database()
    ensures
        DownloadStatus::Requested.name() == "requested"@,
        DownloadStatus::Downloading.name() == "downloading"@,
        DownloadStatus::Completed.name() == "completed"@,
        DownloadStatus::Failed.name() == "failed"@,
        DownloadStatus::Canceled.name() == "canceled"@,
        DownloadStatus::Interrupted.name() == "interrupted"@,
{
}

/// SQLite holds a number up to the greatest of its signed integers, and what is said of a greater one
/// is always the same.
pub proof fn numbers_fit_up_to_the_greatest_integer(value: u64, message: Seq<char>)
    ensures
        fits(value) <==> value <= 9_223_372_036_854_775_807,
        opt_fits(Some(value)) <==> value <= 9_223_372_036_854_775_807,
        opt_fits(None),
        fits(value) ==> opt_stored(Some(value)) is Some && opt_stored(Some(value))->0 == value,
        opt_stored(None) is None,
        out_of_range(message) <==> message == "Value exceeds SQLite's integer range."@,
{
}

/// Both statements read the same columns, in the order of a row: one reads all downloads, the newest
/// first and among those of one time the last one first, the other the download of an ID.
#[verifier::spinoff_prover]
#[verifier::rlimit(60)]
pub proof fn downloads_are_read_newest_first()
    ensures
        ALL_DOWNLOADS@ == "SELECT id, requested_at, updated_at, completed_at, url, source_page_url, suggested_filename, path, mime_type, content_disposition, status, bytes_received, total_bytes, interrupt_reason"@
            + " FROM download_entries ORDER BY requested_at DESC, id DESC"@,
        ONE_DOWNLOAD@ == "SELECT id, requested_at, updated_at, completed_at, url, source_page_url, suggested_filename, path, mime_type, content_disposition, status, bytes_received, total_bytes, interrupt_reason"@
            + " FROM download_entries WHERE id = ?1"@,
{
    reveal_strlit(
        "SELECT id, requested_at, updated_at, completed_at, url, source_page_url, suggested_filename, path, mime_type, content_disposition, status, bytes_received, total_bytes, interrupt_reason FROM download_entries ORDER BY requested_at DESC, id DESC",
    );
    reveal_strlit(
        "SELECT id, requested_at, updated_at, completed_at, url, source_page_url, suggested_filename, path, mime_type, content_disposition, status, bytes_received, total_bytes, interrupt_reason FROM download_entries WHERE id = ?1",
    );
    reveal_strlit(
        "SELECT id, requested_at, updated_at, completed_at, url, source_page_url, suggested_filename, path, mime_type, content_disposition, status, bytes_received, total_bytes, interrupt_reason",
    );
    reveal_strlit(" FROM download_entries ORDER BY requested_at DESC, id DESC");
    reveal_strlit(" FROM download_entries WHERE id = ?1");
    let columns = "SELECT id, requested_at, updated_at, completed_at, url, source_page_url, suggested_filename, path, mime_type, content_disposition, status, bytes_received, total_bytes, interrupt_reason"@;
    assert(ALL_DOWNLOADS@ =~= columns + " FROM download_entries ORDER BY requested_at DESC, id DESC"@);
    assert(ONE_DOWNLOAD@ =~= columns + " FROM download_entries WHERE id = ?1"@);
}

/// A row whose status cannot be read is reported as SQLite's errors are worded, with the column.
pub proof fn unreadable_status_is_explained(message: Seq<char>)
    ensures
        unreadable(message) == "Conversion error from type Text at index: 10, "@ + message,
{
}

} // verus!
