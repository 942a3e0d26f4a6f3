//! Downloads in progress: which run, how often their progress is told, and how they end.

use crate::download::{
    as_unsigned, as_unsigned_or_zero, download_row_view, download_view, end_change, fits, opt_fits, out_of_range,
    request_row, state_change, unsigned, unsigned_or_zero, DownloadEntry, DownloadEntryView, DownloadRow, DownloadRowView,
    DownloadStatus, DownloadStore,
};
use crate::filename::{clean, suggested_name};
use crate::text::opt_text;
use std::collections::{HashMap, HashSet};
use vstd::prelude::*;

verus! {

broadcast use vstd::std_specs::hash::group_hash_axioms;

/// The least time in milliseconds between two messages about one download.
pub const PROGRESS_EMIT_INTERVAL_MS: u64 = 100;

/// The least time in milliseconds between two writes of one download's progress.
pub const PROGRESS_WRITE_INTERVAL_MS: u64 = 500;

/// When a download's progress was last told and last written.
#[derive(Clone, Copy, Debug, PartialEq, Eq, Structural)]
pub struct ProgressClock {
    pub emitted_at: u64,
    pub persisted_at: u64,
}

/// What is to be done about a report of progress.
#[derive(Clone, Copy, Debug, PartialEq, Eq, Structural)]
pub struct ProgressReport {
    pub persist: bool,
    pub emit: bool,
}

/// The downloads that wait for the answer to their save dialog, and those in progress.
pub struct DownloadManager {
    pub pending: HashSet<u64>,
    pub active: HashSet<u64>,
    pub clocks: HashMap<u64, ProgressClock>,
}

/// The downloads that wait and those in progress as sets and a map.
#[verifier::ext_equal]
pub struct DownloadManagerView {
    pub pending: Set<u64>,
    pub active: Set<u64>,
    pub clocks: Map<u64, ProgressClock>,
}

impl View for DownloadManager {
    type V = DownloadManagerView;

    open spec fn view(&self) -> DownloadManagerView {
        DownloadManagerView { pending: self.pending@, active: self.active@, clocks: self.clocks@ }
    }
}

/// The downloads once the save dialog of `id` is shown.
pub open spec fn offered(state: DownloadManagerView, id: u64) -> DownloadManagerView {
    DownloadManagerView { pending: state.pending.insert(id), ..state }
}

/// The downloads once the answer to the save dialog of `id` is taken.
pub open spec fn taken(state: DownloadManagerView, id: u64) -> DownloadManagerView {
    DownloadManagerView { pending: state.pending.remove(id), ..state }
}

/// The downloads once the save dialog of `id` has been answered; `watch` tells whether the download
/// is to run. Only a download that waits for an answer is changed by one.
pub open spec fn answered(state: DownloadManagerView, id: u64, watch: bool) -> DownloadManagerView {
    if !state.pending.contains(id) {
        state
    } else if watch {
        DownloadManagerView { active: state.active.insert(id), ..taken(state, id) }
    } else {
        taken(state, id)
    }
}

/// The clock of a download; one that was never told nor written stands at the epoch.
pub open spec fn clock_of(clocks: Map<u64, ProgressClock>, id: u64) -> ProgressClock {
    if clocks.contains_key(id) {
        clocks[id]
    } else {
        ProgressClock { emitted_at: 0, persisted_at: 0 }
    }
}

/// Whether at least `interval` has passed between two times.
pub open spec fn elapsed(since: u64, now: u64, interval: u64) -> bool {
    now - since >= interval
}

/// What is to be done about progress at `now`.
pub open spec fn due(clock: ProgressClock, now: u64) -> ProgressReport {
    ProgressReport {
        persist: elapsed(clock.persisted_at, now, PROGRESS_WRITE_INTERVAL_MS),
        emit: elapsed(clock.emitted_at, now, PROGRESS_EMIT_INTERVAL_MS),
    }
}

/// The clock after that has been done.
pub open spec fn ticked(clock: ProgressClock, now: u64) -> ProgressClock {
    ProgressClock {
        persisted_at: if due(clock, now).persist {
            now
        } else {
            clock.persisted_at
        },
        emitted_at: if due(clock, now).emit {
            now
        } else {
            clock.emitted_at
        },
    }
}

/// What the web view says of a download whose state has changed.
#[derive(Debug)]
pub enum OperationState {
    InProgress,
    Completed,
    Interrupted { user_canceled: bool, reason: String },
}

/// The status and the reason with which a download ends in a state, if it ends.
pub open spec fn ending(state: OperationState) -> Option<(DownloadStatus, Option<Seq<char>>)> {
    match state {
        OperationState::InProgress => None,
        OperationState::Completed => Some((DownloadStatus::Completed, None)),
        OperationState::Interrupted { user_canceled, reason } => Some(
            (
                if user_canceled {
                    DownloadStatus::Canceled
                } else {
                    DownloadStatus::Failed
                },
                Some(reason@),
            ),
        ),
    }
}

/// What follows from the answer to a save dialog.
#[derive(Debug)]
pub struct PromptOutcome {
    /// Whether the web view has to drop the download.
    pub cancel: bool,
    /// Whether the download runs from now on and is to be watched.
    pub watch: bool,
    /// The row to write, if any, or why none can be written.
    pub change: Result<Option<DownloadRow>, String>,
}

/// The row to write once a save dialog has been answered.
pub open spec fn prompt_change(
    id: u64,
    selected: Option<Seq<char>>,
    configured: bool,
    total: Option<u64>,
    now: u64,
    stored: Option<DownloadRowView>,
) -> Option<DownloadRowView> {
    match selected {
        Some(path) => if configured {
            state_change(stored, id, DownloadStatus::Downloading, Some(path), None, false, now)
        } else {
            end_change(stored, id, DownloadStatus::Failed, 0, total, Some("destination_error"@), now)
        },
        None => state_change(
            stored,
            id,
            DownloadStatus::Canceled,
            None,
            Some("save_dialog_canceled"@),
            true,
            now,
        ),
    }
}

impl DownloadManager {
    /// No download waits or is in progress.
    pub fn new() -> (r: DownloadManager)
        ensures
            r@ == (DownloadManagerView { pending: Set::empty(), active: Set::empty(), clocks: Map::empty() }),
    {
        DownloadManager { pending: HashSet::new(), active: HashSet::new(), clocks: HashMap::new() }
    }

    /// The save dialog of the download `id` is shown, which waits for its answer.
    pub fn offer(&mut self, id: u64)
        ensures
            final(self)@ == offered(old(self)@, id),
    {
        self.pending.insert(id);
    }

    /// Tells whether the download `id` waits for the answer to its save dialog. It no longer does.
    pub fn take_pending(&mut self, id: u64) -> (r: bool)
        ensures
            r == old(self)@.pending.contains(id),
            final(self)@.pending == old(self)@.pending.remove(id),
            final(self)@ == taken(old(self)@, id),
    {
        self.pending.remove(&id)
    }

    /// What is to be done about progress of the download `id` at `now`: writes are at least half a
    /// second apart and messages a tenth of one.
    pub fn report_progress(&mut self, id: u64, now: u64) -> (r: ProgressReport)
        ensures
            r == due(clock_of(old(self)@.clocks, id), now),
            final(self)@ == (DownloadManagerView {
                clocks: old(self)@.clocks.insert(id, ticked(clock_of(old(self)@.clocks, id), now)),
                ..old(self)@
            }),
            final(self)@ == progressed(old(self)@, id, now),
    {
        let clock: ProgressClock = match self.clocks.get(&id) {
            Some(present) => *present,
            None => ProgressClock { emitted_at: 0, persisted_at: 0 },
        };
        let persist: bool = now.saturating_sub(clock.persisted_at) >= PROGRESS_WRITE_INTERVAL_MS;
        let emit: bool = now.saturating_sub(clock.emitted_at) >= PROGRESS_EMIT_INTERVAL_MS;
        let next: ProgressClock = ProgressClock {
            persisted_at: if persist {
                now
            } else {
                clock.persisted_at
            },
            emitted_at: if emit {
                now
            } else {
                clock.emitted_at
            },
        };
        self.clocks.insert(id, next);
        ProgressReport { persist, emit }
    }

    /// Fails unless the download `id` runs.
    pub fn ensure_active(&self, id: u64) -> (r: Result<(), String>)
        ensures
            match r {
                Ok(_) => self@.active.contains(id),
                Err(message) => {
                    &&& !self@.active.contains(id)
                    &&& message@ == "This download is no longer in progress."@
                },
            },
    {
        if self.active.contains(&id) {
            Ok(())
        } else {
            Err("This download is no longer in progress.".to_owned())
        }
    }

    /// Forgets the download `id`.
    pub fn remove_active(&mut self, id: u64)
        ensures
            final(self)@ == (DownloadManagerView {
                active: old(self)@.active.remove(id),
                clocks: old(self)@.clocks.remove(id),
                ..old(self)@
            }),
            final(self)@ == forgotten(old(self)@, id),
    {
        self.active.remove(&id);
        self.clocks.remove(&id);
    }

    /// What follows once the save dialog of the download `id` has been answered with `selected`.
    /// `configured` tells whether the web view took that path, `total` is the size it announced
    /// and `stored` is the row that the database holds. A download that does not wait for an
    /// answer, because it has had one or never asked, is left alone.
    pub fn complete_pending_download(
        &mut self,
        id: u64,
        selected: Option<String>,
        configured: bool,
        total: Option<u64>,
        now: u64,
        stored: Option<DownloadRow>,
    ) -> (r: Option<PromptOutcome>)
        ensures
            r is Some <==> old(self)@.pending.contains(id),
            final(self)@ == answered(old(self)@, id, selected is Some && configured),
            match r {
                Some(outcome) => {
                    &&& outcome.watch == (selected is Some && configured)
                    &&& outcome.cancel == !outcome.watch
                    &&& (outcome.cancel, outcome.watch) == drop_or_watch(opt_text(selected), configured)
                    &&& outcome.change is Ok <==> fits(now) && fits(id) && (selected is Some && !configured ==> opt_fits(
                        total,
                    ))
                    &&& match outcome.change {
                        Ok(change) => download_row_view(change) == prompt_change(
                            id,
                            opt_text(selected),
                            configured,
                            total,
                            now,
                            download_row_view(stored),
                        ),
                        Err(message) => out_of_range(message@),
                    }
                },
                None => final(self)@ == old(self)@,
            },
    {
        if !self.take_pending(id) {
            assert(self@ =~= old(self)@);
            return None;
        }
        match selected {
            Some(path) => {
                if configured {
                    let change: Result<Option<DownloadRow>, String> = DownloadStore::begin(
                        id,
                        path.as_str(),
                        now,
                        stored,
                    );
                    self.active.insert(id);
                    Some(PromptOutcome { cancel: false, watch: true, change })
                } else {
                    let change: Result<Option<DownloadRow>, String> = DownloadStore::finish(
                        id,
                        DownloadStatus::Failed,
                        0,
                        total,
                        Some("destination_error".to_owned()),
                        now,
                        stored,
                    );
                    Some(PromptOutcome { cancel: true, watch: false, change })
                }
            },
            None => {
                let change: Result<Option<DownloadRow>, String> = DownloadStore::cancel_before_start(id, now, stored);
                Some(PromptOutcome { cancel: true, watch: false, change })
            },
        }
    }

    /// What is to be written, if anything, when the state of the download `id` has changed at
    /// `now`. A download that has ended is no longer in progress.
    pub fn state_changed(
        &mut self,
        id: u64,
        state: OperationState,
        received: u64,
        total: Option<u64>,
        now: u64,
        stored: Option<DownloadRow>,
    ) -> (r: Option<Result<Option<DownloadRow>, String>>)
        ensures
            r is Some <==> ending(state) is Some,
            final(self)@ == if ending(state) is Some {
                (DownloadManagerView {
                    active: old(self)@.active.remove(id),
                    clocks: old(self)@.clocks.remove(id),
                    ..old(self)@
                })
            } else {
                old(self)@
            },
            ending(state) is Some ==> final(self)@ == forgotten(old(self)@, id),
            match (r, ending(state)) {
                (Some(Ok(change)), Some((status, reason))) => {
                    &&& fits(received) && opt_fits(total) && fits(now) && fits(id)
                    &&& download_row_view(change) == end_change(
                        download_row_view(stored),
                        id,
                        status,
                        received,
                        total,
                        reason,
                        now,
                    )
                    &&& download_row_view(change) == state_end(
                        download_row_view(stored),
                        id,
                        state,
                        received,
                        total,
                        now,
                    )
                },
                (Some(Err(message)), _) => {
                    &&& !(fits(received) && opt_fits(total) && fits(now) && fits(id))
                    &&& out_of_range(message@)
                },
                _ => true,
            },
    {
        let (status, reason): (DownloadStatus, Option<String>) = match state {
            OperationState::InProgress => {
                return None;
            },
            OperationState::Completed => (DownloadStatus::Completed, None),
            OperationState::Interrupted { user_canceled, reason } => {
                if user_canceled {
                    (DownloadStatus::Canceled, Some(reason))
                } else {
                    (DownloadStatus::Failed, Some(reason))
                }
            },
        };
        let change: Result<Option<DownloadRow>, String> = DownloadStore::finish(
            id,
            status,
            received,
            total,
            reason,
            now,
            stored,
        );
        self.remove_active(id);
        Some(change)
    }
}

/// The download as it is shown when it has received bytes by `now` that are not written yet.
pub fn progress_preview(entry: DownloadEntry, received: u64, total: Option<u64>, now: u64) -> (r: DownloadEntry)
    ensures
        r@ == (DownloadEntryView {
            bytes_received: received,
            total_bytes: match total {
                Some(_) => total,
                None => entry@.total_bytes,
            },
            updated_at: now,
            ..entry@
        }),
        r@ == previewed(entry@, received, total, now),
{
    let mut shown: DownloadEntry = entry;
    shown.bytes_received = received;
    if total.is_some() {
        shown.total_bytes = total;
    }
    shown.updated_at = now;
    shown
}

/// The number of bytes that a web view reports as received.
pub fn operation_received(reported: i64) -> (r: u64)
    ensures
        r == unsigned_or_zero(reported),
{
    as_unsigned_or_zero(reported)
}

/// The size of a download that a web view reports; a negative one is not known.
pub fn operation_total(reported: i64) -> (r: Option<u64>)
    ensures
        r == unsigned(reported),
{
    as_unsigned(reported)
}

/// A text, if there is anything in it.
pub open spec fn nonempty(text: Option<Seq<char>>) -> Option<Seq<char>> {
    match text {
        Some(value) => if value.len() > 0 {
            Some(value)
        } else {
            None
        },
        None => None,
    }
}

/// A text of the web view, if there is anything in it.
pub fn reported_text(text: Option<String>) -> (r: Option<String>)
    ensures
        opt_text(r) == nonempty(opt_text(text)),
{
    match text {
        Some(value) => {
            if value.as_str().is_empty() {
                None
            } else {
                Some(value)
            }
        },
        None => None,
    }
}

/// What the web view says of a download that starts.
#[derive(Debug)]
pub struct ReportedDownload {
    pub url: String,
    pub source_page_url: Option<String>,
    /// The last component of the path that the web view suggests.
    pub file_name: Option<String>,
    pub mime_type: Option<String>,
    pub content_disposition: Option<String>,
    pub total: i64,
}

/// The row of a download that starts at `now`.
pub open spec fn starting_row(report: ReportedDownload, now: u64) -> DownloadRowView {
    request_row(
        report.url@,
        opt_text(report.source_page_url),
        clean(
            match report.file_name {
                Some(name) => name@,
                None => "download"@,
            },
        ),
        nonempty(opt_text(report.mime_type)),
        nonempty(opt_text(report.content_disposition)),
        unsigned(report.total),
        now,
    )
}

/// The row of a download that starts at `now`, before the user has chosen where it is saved.
pub fn download_starting(report: ReportedDownload, now: u64) -> (r: Result<DownloadRow, String>)
    ensures
        match r {
            Ok(row) => fits(now) && row@ == starting_row(report, now),
            Err(message) => !fits(now) && out_of_range(message@),
        },
{
    let name: String = suggested_name(report.file_name);
    DownloadStore::record_request(
        report.url.as_str(),
        report.source_page_url,
        name.as_str(),
        reported_text(report.mime_type),
        reported_text(report.content_disposition),
        operation_total(report.total),
        now,
    )
}

/// The saved path of a download that can be opened, or why it cannot.
pub open spec fn saved_path(found: Option<DownloadEntryView>) -> Result<Seq<char>, Seq<char>> {
    match found {
        None => Err("Download no longer exists."@),
        Some(entry) => if entry.status != DownloadStatus::Completed {
            Err("Only completed downloads can be opened."@)
        } else {
            match entry.path {
                None => Err("This download has no saved path."@),
                Some(path) => Ok(path),
            }
        },
    }
}

/// The path at which a download was saved, if it is completed.
pub fn completed_path(found: Option<DownloadEntry>) -> (r: Result<String, String>)
    ensures
        match r {
            Ok(path) => saved_path(download_view(found)) == Ok::<Seq<char>, Seq<char>>(path@),
            Err(message) => saved_path(download_view(found)) == Err::<Seq<char>, Seq<char>>(message@),
        },
{
    match DownloadStore::existing(found) {
        Ok(entry) => {
            if entry.status != DownloadStatus::Completed {
                return Err("Only completed downloads can be opened.".to_owned());
            }
            match entry.path {
                Some(path) => Ok(path),
                None => Err("This download has no saved path.".to_owned()),
            }
        },
        Err(message) => Err(message),
    }
}

/// The argument with which the file manager opens a saved download, or shows where it is.
pub fn open_completed_download(path: &str, exists: bool, reveal: bool) -> (r: Result<String, String>)
    ensures
        match r {
            Ok(argument) => exists && argument@ == if reveal {
                "/select,"@ + path@
            } else {
                path@
            },
            Err(message) => {
                &&& !exists
                &&& message@ == "The downloaded file is no longer at its saved location."@
            },
        },
        match r {
            Ok(argument) => opening(path@, exists, reveal) == Some(argument@),
            Err(_) => opening(path@, exists, reveal) is None,
        },
{
    if !exists {
        return Err("The downloaded file is no longer at its saved location.".to_owned());
    }
    if reveal {
        let mut argument: String = "/select,".to_owned();
        argument.append(path);
        Ok(argument)
    } else {
        Ok(path.to_owned())
    }
}

/// A save dialog is answered once: a download that is offered waits until it is answered, the first
/// answer is used up, a later one changes nothing, and the other downloads wait as before.
pub proof fn save_dialog_is_answered_once(state: DownloadManagerView, id: u64, first: bool, second: bool, other: u64)
    ensures
        offered(state, id).pending.contains(id),
        !answered(state, id, first).pending.contains(id),
        answered(answered(state, id, first), id, second) == answered(state, id, first),
        answered(offered(state, id), id, first).active == if first {
            state.active.insert(id)
        } else {
            state.active
        },
        other != id ==> {
            &&& offered(state, id).pending.contains(other) == state.pending.contains(other)
            &&& answered(state, id, first).pending.contains(other) == state.pending.contains(other)
            &&& answered(state, id, first).active.contains(other) == state.active.contains(other)
        },
{
}

/// The clock after the first `n` reports at the given times.
pub open spec fn clock_after(clock: ProgressClock, times: Seq<u64>, n: int) -> ProgressClock
    decreases n,
{
    if n <= 0 {
        clock
    } else {
        ticked(clock_after(clock, times, n - 1), times[n - 1])
    }
}

/// What is done about the report at a place of the given times.
pub open spec fn report_at(clock: ProgressClock, times: Seq<u64>, i: int) -> ProgressReport {
    due(clock_after(clock, times, i), times[i])
}

/// What was written or told stays in the clock until something later is.
proof fn lemma_clock_keeps(clock: ProgressClock, times: Seq<u64>, i: int, j: int)
    requires
        0 <= i < j <= times.len(),
    ensures
        report_at(clock, times, i).persist ==> clock_after(clock, times, j).persisted_at >= times[i],
        report_at(clock, times, i).emit ==> clock_after(clock, times, j).emitted_at >= times[i],
    decreases j,
{
    if j > i + 1 {
        lemma_clock_keeps(clock, times, i, j - 1);
    }
}

/// Of any reports of one download, at whatever times and with whatever reports in between, two that
/// are written are at least half a second apart, and two that are told at least a tenth of one. A
/// report that leads to neither leaves the clock as it was.
pub proof fn reports_are_spaced(clock: ProgressClock, times: Seq<u64>, i: int, j: int)
    requires
        0 <= i < j < times.len(),
    ensures
        report_at(clock, times, i).persist && report_at(clock, times, j).persist ==> times[j] - times[i] >= 500,
        report_at(clock, times, i).emit && report_at(clock, times, j).emit ==> times[j] - times[i] >= 100,
        !report_at(clock, times, i).persist && !report_at(clock, times, i).emit ==> clock_after(clock, times, i + 1)
            == clock_after(clock, times, i),
{
    lemma_clock_keeps(clock, times, i, j);
}

/// Progress is told as soon as a tenth of a second has passed since it was told last, and written as
/// soon as half a second has passed since it was written last, and not before. What is told or
/// written sets its clock to that time and leaves the other clock alone.
pub proof fn progress_is_reported_in_time(clock: ProgressClock, now: u64)
    ensures
        due(clock, now).emit <==> now >= clock.emitted_at + 100,
        due(clock, now).persist <==> now >= clock.persisted_at + 500,
        ticked(clock, now).emitted_at == if now >= clock.emitted_at + 100 {
            now
        } else {
            clock.emitted_at
        },
        ticked(clock, now).persisted_at == if now >= clock.persisted_at + 500 {
            now
        } else {
            clock.persisted_at
        },
{
}

/// A download of which nothing was told nor written has its clock at the epoch; any other has its
/// own, whatever the clocks of the others show.
pub proof fn every_download_has_its_own_clock(
    clocks: Map<u64, ProgressClock>,
    id: u64,
    other: u64,
    clock: ProgressClock,
)
    requires
        id != other,
    ensures
        clock_of(clocks.insert(id, clock), id) == clock,
        clock_of(clocks.insert(other, clock), id) == clock_of(clocks, id),
        !clocks.contains_key(id) ==> clock_of(clocks, id).emitted_at == 0 && clock_of(clocks, id).persisted_at == 0,
{
}

/// A download that the web view reports as complete is completed, without a reason. One that it
/// stopped for the user is canceled and one that it stopped otherwise has failed, each with the
/// reason that it gives. One that still runs does not end.
pub proof fn web_view_tells_how_a_download_ends(reason: String)
    ensures
        ending(OperationState::InProgress) is None,
        ending(OperationState::Completed) == Some((DownloadStatus::Completed, None::<Seq<char>>)),
        ending(OperationState::Interrupted { user_canceled: true, reason }) == Some(
            (DownloadStatus::Canceled, Some(reason@)),
        ),
        ending(OperationState::Interrupted { user_canceled: false, reason }) == Some(
            (DownloadStatus::Failed, Some(reason@)),
        ),
{
}

/// A download whose place was chosen and taken runs and is saved there. One whose place could not be
/// taken has failed for that reason with nothing received. One whose dialog was left is canceled for
/// that reason.
pub proof fn answer_decides_the_download(
    row: DownloadRowView,
    id: u64,
    path: Seq<char>,
    configured: bool,
    total: Option<u64>,
    now: u64,
)
    requires
        row.id == id,
        now <= i64::MAX,
    ensures
        prompt_change(id, Some(path), true, total, now, Some(row)) matches Some(after) && {
            &&& after.status == "downloading"@
            &&& after.path == Some(path)
            &&& after.interrupt_reason is None && after.completed_at is None
            &&& after.updated_at == now
        },
        prompt_change(id, Some(path), false, total, now, Some(row)) matches Some(after) && {
            &&& after.status == "failed"@
            &&& after.interrupt_reason == Some("destination_error"@)
            &&& after.bytes_received == 0
            &&& after.path == row.path
            &&& after.updated_at == now && after.completed_at is Some && after.completed_at->0 == now
        },
        prompt_change(id, None, configured, total, now, Some(row)) matches Some(after) && {
            &&& after.status == "canceled"@
            &&& after.interrupt_reason == Some("save_dialog_canceled"@)
            &&& after.path == row.path
            &&& after.updated_at == now && after.completed_at is Some && after.completed_at->0 == now
        },
{
}

/// The downloads once `id` is no longer in progress.
pub open spec fn forgotten(state: DownloadManagerView, id: u64) -> DownloadManagerView {
    DownloadManagerView { active: state.active.remove(id), clocks: state.clocks.remove(id), ..state }
}

/// A download that has ended is no longer in progress and its clock is gone; every other download
/// runs, waits and counts as before.
pub proof fn ended_download_is_forgotten(state: DownloadManagerView, id: u64, other: u64)
    ensures
        !forgotten(state, id).active.contains(id),
        !forgotten(state, id).clocks.contains_key(id),
        forgotten(state, id).pending == state.pending,
        other != id ==> {
            &&& forgotten(state, id).active.contains(other) == state.active.contains(other)
            &&& clock_of(forgotten(state, id).clocks, other) == clock_of(state.clocks, other)
        },
{
}

/// A download as it is shown with progress that is not written yet.
pub open spec fn previewed(entry: DownloadEntryView, received: u64, total: Option<u64>, now: u64) -> DownloadEntryView {
    DownloadEntryView {
        bytes_received: received,
        total_bytes: match total {
            Some(_) => total,
            None => entry.total_bytes,
        },
        updated_at: now,
        ..entry
    }
}

/// Progress that is shown before it is written is what would be read back had it been written.
pub proof fn preview_shows_what_a_write_would(
    row: DownloadRowView,
    entry: DownloadEntryView,
    id: u64,
    received: u64,
    total: Option<u64>,
    now: u64,
)
    requires
        row.id == id && row.status == "downloading"@,
        crate::download::download_of_row(row) == Ok::<DownloadEntryView, Seq<char>>(entry),
        received <= i64::MAX && now <= i64::MAX,
        total is Some ==> total->0 <= i64::MAX,
    ensures
        crate::download::progress_change(Some(row), id, received, total, now) matches Some(after)
            && crate::download::download_of_row(after) == Ok::<DownloadEntryView, Seq<char>>(
            previewed(entry, received, total, now),
        ),
        previewed(entry, received, total, now).bytes_received == received,
{
}

/// What the web view reports of a new download is recorded value by value. An empty text and a
/// negative size are unknown. The name is cleaned, and a download without one is called `download`.
pub proof fn start_of_a_download_is_recorded(report: ReportedDownload, now: u64)
    requires
        now <= i64::MAX,
    ensures
        ({
            let row = starting_row(report, now);
            &&& row.url == report.url@
            &&& row.source_page_url == opt_text(report.source_page_url)
            &&& row.suggested_filename == if report.file_name is Some {
                clean(report.file_name->0@)
            } else {
                clean("download"@)
            }
            &&& row.mime_type is Some <==> report.mime_type is Some && report.mime_type->0@.len() > 0
            &&& row.mime_type is Some ==> row.mime_type == Some(report.mime_type->0@)
            &&& row.content_disposition is Some <==> report.content_disposition is Some
                && report.content_disposition->0@.len() > 0
            &&& row.content_disposition is Some ==> row.content_disposition == Some(report.content_disposition->0@)
            &&& row.total_bytes == if report.total >= 0 {
                Some(report.total)
            } else {
                None
            }
            &&& row.requested_at == now
            &&& row.status == "requested"@
        }),
{
}

/// What a web view counts is taken as it is; a negative count of received bytes is none, and a
/// negative size is unknown.
pub proof fn counts_are_taken_as_they_are(reported: i64)
    ensures
        reported >= 0 ==> unsigned_or_zero(reported) == reported && unsigned(reported) is Some && unsigned(reported)->0
            == reported,
        reported < 0 ==> unsigned_or_zero(reported) == 0 && unsigned(reported) is None,
{
}

/// A download is opened at the path at which it was saved, and only once it is completed.
pub proof fn only_completed_downloads_are_opened(entry: DownloadEntryView)
    ensures
        match saved_path(Some(entry)) {
            Ok(path) => entry.status == DownloadStatus::Completed && entry.path == Some(path),
            Err(message) => {
                &&& entry.status != DownloadStatus::Completed || entry.path is None
                &&& message == if entry.status != DownloadStatus::Completed {
                    "Only completed downloads can be opened."@
                } else {
                    "This download has no saved path."@
                }
            },
        },
        saved_path(None) == Err::<Seq<char>, Seq<char>>("Download no longer exists."@),
{
}

/// The argument with which a saved download is opened, or shown where it is, if it is still there.
pub open spec fn opening(path: Seq<char>, exists: bool, reveal: bool) -> Option<Seq<char>> {
    if !exists {
        None
    } else if reveal {
        Some("/select,"@ + path)
    } else {
        Some(path)
    }
}

/// A file that is there is opened by its path and shown by selecting that path; one that is gone is
/// neither.
pub proof fn saved_file_is_opened_or_shown(path: Seq<char>, reveal: bool)
    ensures
        opening(path, true, false) == Some(path),
        opening(path, true, true) == Some("/select,"@ + path),
        opening(path, false, reveal) is None,
{
}

/// Whether the web view has to drop a download whose dialog was answered, and whether it is to be
/// watched.
pub open spec fn drop_or_watch(selected: Option<Seq<char>>, configured: bool) -> (bool, bool) {
    (!(selected is Some && configured), selected is Some && configured)
}

/// A download runs exactly if a place was chosen and the web view took it, and is dropped otherwise.
pub proof fn chosen_place_lets_the_download_run(path: Seq<char>, configured: bool)
    ensures
        drop_or_watch(Some(path), true) == (false, true),
        drop_or_watch(Some(path), false) == (true, false),
        drop_or_watch(None, configured) == (true, false),
{
}

/// The row to write when the state of the download `id` has changed, if it has ended.
pub open spec fn state_end(
    stored: Option<DownloadRowView>,
    id: u64,
    state: OperationState,
    received: u64,
    total: Option<u64>,
    now: u64,
) -> Option<DownloadRowView> {
    match ending(state) {
        Some((status, reason)) => end_change(stored, id, status, received, total, reason, now),
        None => None,
    }
}

/// When the web view reports the end of a download, its row holds the bytes that the web view reports
/// then, how it ended and why, and the time.
pub proof fn reported_end_is_recorded(
    row: DownloadRowView,
    id: u64,
    reason: String,
    user_canceled: bool,
    received: u64,
    total: Option<u64>,
    now: u64,
)
    requires
        row.id == id,
        received <= i64::MAX && now <= i64::MAX,
    ensures
        state_end(Some(row), id, OperationState::Completed, received, total, now) matches Some(after) && {
            &&& after.status == "completed"@
            &&& after.bytes_received == received
            &&& after.interrupt_reason is None
            &&& after.completed_at is Some && after.completed_at->0 == now
        },
        state_end(
            Some(row),
            id,
            OperationState::Interrupted { user_canceled, reason },
            received,
            total,
            now,
        ) matches Some(after) && {
            &&& after.status == if user_canceled {
                "canceled"@
            } else {
                "failed"@
            }
            &&& after.bytes_received == received
            &&& after.interrupt_reason == Some(reason@)
            &&& after.completed_at is Some && after.completed_at->0 == now
        },
        state_end(Some(row), id, OperationState::InProgress, received, total, now) is None,
{
}

/// The downloads after progress of `id` was reported at `now`.
pub open spec fn progressed(state: DownloadManagerView, id: u64, now: u64) -> DownloadManagerView {
    DownloadManagerView { clocks: state.clocks.insert(id, ticked(clock_of(state.clocks, id), now)), ..state }
}

/// A report of progress sets the clock of its own download and no other, and neither starts nor ends
/// a download. Right after a report that is told and written, nothing is told or written again.
pub proof fn report_sets_its_own_clock(state: DownloadManagerView, id: u64, other: u64, now: u64)
    ensures
        clock_of(progressed(state, id, now).clocks, id) == ticked(clock_of(state.clocks, id), now),
        other != id ==> clock_of(progressed(state, id, now).clocks, other) == clock_of(state.clocks, other),
        progressed(state, id, now).active == state.active && progressed(state, id, now).pending == state.pending,
        ({
            let again = due(clock_of(progressed(state, id, now).clocks, id), now);
            !again.emit && !again.persist
        }),
{
}

} // verus!
