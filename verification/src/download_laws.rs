//! What holds of the download ledger as a whole.

use crate::download::{
    download_of_row, end_change, fits, interruption, interruptions, opt_fits, progress_change, request_row,
    state_change, stored_download_status_reads_back, DownloadEntryView, DownloadRowView, DownloadStatus,
};
use vstd::prelude::*;

verus! {

/// A table of downloads, each under its ID.
pub open spec fn keyed(table: Map<i64, DownloadRowView>) -> bool {
    forall|k: i64| table.contains_key(k) ==> (#[trigger] table[k]).id == k
}

/// The row that a table holds for an ID.
pub open spec fn row_at(table: Map<i64, DownloadRowView>, id: u64) -> Option<DownloadRowView> {
    if fits(id) && table.contains_key(id as i64) {
        Some(table[id as i64])
    } else {
        None
    }
}

/// The table after a row has been written.
pub open spec fn written(
    table: Map<i64, DownloadRowView>,
    change: Option<DownloadRowView>,
) -> Map<i64, DownloadRowView> {
    match change {
        Some(row) => table.insert(row.id, row),
        None => table,
    }
}

/// The table after several rows have been written, one by one.
pub open spec fn all_written(
    table: Map<i64, DownloadRowView>,
    changes: Seq<DownloadRowView>,
) -> Map<i64, DownloadRowView>
    decreases changes.len(),
{
    if changes.len() == 0 {
        table
    } else {
        written(all_written(table, changes.drop_last()), Some(changes.last()))
    }
}

/// The table after the browser has been opened at `now`.
pub open spec fn opened(table: Map<i64, DownloadRowView>, now: u64) -> Map<i64, DownloadRowView> {
    Map::new(
        |k: i64| table.contains_key(k),
        |k: i64|
            match interruption(table[k], now) {
                Some(changed) => changed,
                None => table[k],
            },
    )
}

/// What is recorded of one download leaves every other download as it was, adds none and drops
/// none.
pub proof fn change_touches_one_download(
    table: Map<i64, DownloadRowView>,
    id: u64,
    change: Option<DownloadRowView>,
    status: DownloadStatus,
    path: Option<Seq<char>>,
    reason: Option<Seq<char>>,
    completed: bool,
    received: u64,
    total: Option<u64>,
    now: u64,
)
    requires
        keyed(table),
        ({
            ||| change == state_change(row_at(table, id), id, status, path, reason, completed, now)
            ||| change == progress_change(row_at(table, id), id, received, total, now)
            ||| change == end_change(row_at(table, id), id, status, received, total, reason, now)
        }),
    ensures
        keyed(written(table, change)),
        written(table, change).dom() == table.dom(),
        forall|k: i64|
            table.contains_key(k) && k != id ==> #[trigger] written(table, change)[k] == table[k],
{
    match change {
        Some(row) => {
            assert(row.id == id as i64 && table.contains_key(row.id));
            assert(written(table, change).dom() =~= table.dom());
        },
        None => {},
    }
}

/// Writing the rows that opening the ledger changes gives the opened table, where the rows are
/// those of the table, each once.
pub proof fn opening_writes_the_opened_table(
    table: Map<i64, DownloadRowView>,
    rows: Seq<DownloadRowView>,
    now: u64,
)
    requires
        forall|i: int| 0 <= i < rows.len() ==> table.contains_key((#[trigger] rows[i]).id) && table[rows[i].id]
            == rows[i],
        forall|i: int, j: int| 0 <= i < j < rows.len() ==> (#[trigger] rows[i]).id != (#[trigger] rows[j]).id,
        forall|k: i64| #[trigger] table.contains_key(k) ==> exists|i: int| 0 <= i < rows.len() && (#[trigger] rows[i]).id == k,
    ensures
        all_written(table, interruptions(rows, now)) == opened(table, now),
{
    lemma_written_prefix(table, rows, now);
    let result = all_written(table, interruptions(rows, now));
    assert(result.dom() =~= table.dom());
    assert forall|k: i64| #[trigger] table.contains_key(k) implies result[k] == opened(table, now)[k] by {
        let i = choose|i: int| 0 <= i < rows.len() && (#[trigger] rows[i]).id == k;
        assert(result[rows[i].id] == opened(table, now)[rows[i].id]);
    }
    assert(result =~= opened(table, now));
}

/// The rows that are written are the opened ones; the others stay.
proof fn lemma_written_prefix(table: Map<i64, DownloadRowView>, rows: Seq<DownloadRowView>, now: u64)
    requires
        forall|i: int| 0 <= i < rows.len() ==> table.contains_key((#[trigger] rows[i]).id) && table[rows[i].id]
            == rows[i],
        forall|i: int, j: int| 0 <= i < j < rows.len() ==> (#[trigger] rows[i]).id != (#[trigger] rows[j]).id,
    ensures
        all_written(table, interruptions(rows, now)).dom() == table.dom(),
        forall|i: int|
            0 <= i < rows.len() ==> all_written(table, interruptions(rows, now))[(#[trigger] rows[i]).id] == opened(
                table,
                now,
            )[rows[i].id],
        forall|k: i64|
            (forall|i: int| 0 <= i < rows.len() ==> (#[trigger] rows[i]).id != k) ==> #[trigger] all_written(
                table,
                interruptions(rows, now),
            )[k] == table[k],
    decreases rows.len(),
{
    if rows.len() > 0 {
        let before = rows.drop_last();
        let last = rows.last();
        assert forall|i: int| 0 <= i < before.len() implies table.contains_key((#[trigger] before[i]).id)
            && table[before[i].id] == before[i] by {
            assert(before[i] == rows[i]);
        }
        assert forall|i: int, j: int| 0 <= i < j < before.len() implies (#[trigger] before[i]).id != (
        #[trigger] before[j]).id by {
            assert(before[i] == rows[i] && before[j] == rows[j]);
        }
        lemma_written_prefix(table, before, now);
        let partial = all_written(table, interruptions(before, now));
        let result = all_written(table, interruptions(rows, now));
        assert(forall|i: int| 0 <= i < before.len() ==> (#[trigger] before[i]).id != last.id) by {
            assert forall|i: int| 0 <= i < before.len() implies (#[trigger] before[i]).id != last.id by {
                assert(before[i] == rows[i] && last == rows[rows.len() - 1]);
            }
        }
        assert(partial[last.id] == table[last.id]);
        match interruption(last, now) {
            Some(changed) => {
                assert(interruptions(rows, now).drop_last() =~= interruptions(before, now));
                assert(result == partial.insert(last.id, changed));
                assert(result.dom() =~= table.dom());
            },
            None => {
                assert(result == partial);
            },
        }
        assert forall|i: int| 0 <= i < rows.len() implies result[(#[trigger] rows[i]).id] == opened(table, now)[rows[i].id] by {
            if i < rows.len() - 1 {
                assert(before[i] == rows[i]);
                assert(partial[before[i].id] == opened(table, now)[before[i].id]);
            } else {
                assert(rows[i] == last);
            }
        }
        assert forall|k: i64| (forall|i: int| 0 <= i < rows.len() ==> (#[trigger] rows[i]).id != k) implies #[trigger] result[k]
            == table[k] by {
            assert(rows[rows.len() - 1].id != k);
            assert forall|i: int| 0 <= i < before.len() implies (#[trigger] before[i]).id != k by {
                assert(before[i] == rows[i]);
            }
            assert(partial[k] == table[k]);
        }
    }
}

/// Once the browser has been opened, no download is left that was requested or running before,
/// and those that had ended are as they were.
pub proof fn opening_interrupts_unfinished_work(table: Map<i64, DownloadRowView>, now: u64)
    ensures
        opened(table, now).dom() == table.dom(),
        forall|k: i64|
            table.contains_key(k) ==> (#[trigger] opened(table, now)[k]).status != "requested"@ && opened(
                table,
                now,
            )[k].status != "downloading"@,
        forall|k: i64|
            table.contains_key(k) && table[k].status != "requested"@ && table[k].status != "downloading"@
                ==> #[trigger] opened(table, now)[k] == table[k],
        forall|later: u64| #[trigger] opened(opened(table, now), later) == opened(table, now),
{
    stored_download_status_reads_back(DownloadStatus::Interrupted);
    stored_download_status_reads_back(DownloadStatus::Requested);
    stored_download_status_reads_back(DownloadStatus::Downloading);
    assert("interrupted"@ != "requested"@ && "interrupted"@ != "downloading"@);
    assert(opened(table, now).dom() =~= table.dom());
    assert forall|later: u64| #[trigger] opened(opened(table, now), later) == opened(table, now) by {
        assert(opened(opened(table, now), later) =~= opened(table, now));
    }
}

/// A download that was requested, has begun and has received bytes when the browser is closed is
/// shown as interrupted after the next start, with what was known of it.
pub proof fn closed_browser_interrupts_the_download(
    url: Seq<char>,
    source_page_url: Option<Seq<char>>,
    suggested_filename: Seq<char>,
    mime_type: Option<Seq<char>>,
    content_disposition: Option<Seq<char>>,
    total_bytes: Option<u64>,
    id: u64,
    path: Seq<char>,
    received: u64,
    total: Option<u64>,
    requested: u64,
    begun: u64,
    reported: u64,
    reopened: u64,
)
    requires
        fits(id) && fits(received) && fits(requested) && fits(begun) && fits(reported) && fits(reopened),
        opt_fits(total_bytes) && opt_fits(total),
    ensures
        ({
            let request = DownloadRowView {
                id: id as i64,
                ..request_row(
                    url,
                    source_page_url,
                    suggested_filename,
                    mime_type,
                    content_disposition,
                    total_bytes,
                    requested,
                )
            };
            let running = state_change(
                Some(request),
                id,
                DownloadStatus::Downloading,
                Some(path),
                None,
                false,
                begun,
            );
            let progressed = progress_change(running, id, received, total, reported);
            &&& progressed is Some
            &&& interruption(progressed->0, reopened) is Some
            &&& download_of_row(interruption(progressed->0, reopened)->0) == Ok::<DownloadEntryView, Seq<char>>(
                DownloadEntryView {
                    id,
                    requested_at: requested,
                    updated_at: reopened,
                    completed_at: Some(reopened),
                    url,
                    source_page_url,
                    suggested_filename,
                    path: Some(path),
                    mime_type,
                    content_disposition,
                    status: DownloadStatus::Interrupted,
                    bytes_received: received,
                    total_bytes: match total {
                        Some(_) => total,
                        None => total_bytes,
                    },
                    interrupt_reason: Some("browser_closed"@),
                },
            )
        }),
{
    stored_download_status_reads_back(DownloadStatus::Interrupted);
}

/// Progress that is reported after a download has ended changes nothing.
pub proof fn ended_download_makes_no_progress(
    row: DownloadRowView,
    id: u64,
    status: DownloadStatus,
    received: u64,
    total: Option<u64>,
    reason: Option<Seq<char>>,
    now: u64,
    later_received: u64,
    later_total: Option<u64>,
    later: u64,
)
    requires
        row.id == id,
        status != DownloadStatus::Downloading,
    ensures
        progress_change(
            end_change(Some(row), id, status, received, total, reason, now),
            id,
            later_received,
            later_total,
            later,
        ) is None,
{
    stored_download_status_reads_back(status);
    stored_download_status_reads_back(DownloadStatus::Downloading);
}

} // verus!
