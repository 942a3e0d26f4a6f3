//! What an exported file holds: its records read back, and it holds every visit once. And what an
//! export leaves on disk, however its steps go.

use crate::export::{
    csv_fields, csv_line, doubled, exported_record, file_end, file_start, file_text, fresh_export, joined, json_fields,
    format_named, pieces, pieces_make_the_file, quoted, record_piece, separated, separator, temp_name,
    ExportActionView, ExportFormat, ExportProgressView, ExportStageView, ExportTaskView, CSV_HEADER,
};
use crate::history::HistoryEntryView;
use crate::json::{
    object_text, read_array, read_objects, skip_blank, written_object_reads_back, JsonMember, JsonValue,
};
use crate::text::decimal;
use crate::timestamp::rfc3339_text;
use vstd::prelude::*;

verus! {

/// The field at the start of a text that follows an opening quotation mark, and what comes after
/// its closing one. Two quotation marks stand for one.
pub open spec fn read_field(s: Seq<char>) -> (Seq<char>, Seq<char>)
    decreases s.len(),
{
    if s.len() == 0 {
        (s, s)
    } else if s[0] != '"' {
        let (field, rest) = read_field(s.skip(1));
        (seq![s[0]] + field, rest)
    } else if s.len() > 1 && s[1] == '"' {
        let (field, rest) = read_field(s.skip(2));
        (seq!['"'] + field, rest)
    } else {
        (Seq::empty(), s.skip(1))
    }
}

/// The fields at the start, in quotation marks with commas between them, and what follows them.
pub open spec fn read_line(s: Seq<char>) -> (Seq<Seq<char>>, Seq<char>)
    decreases s.len(),
{
    if s.len() == 0 || s[0] != '"' {
        (Seq::empty(), s)
    } else {
        let (field, rest) = read_field(s.skip(1));
        if 0 < rest.len() < s.len() && rest[0] == ',' {
            let (fields, end) = read_line(rest.skip(1));
            (seq![field] + fields, end)
        } else {
            (seq![field], rest)
        }
    }
}

/// The fields of each line of a text whose lines hold quoted fields.
pub open spec fn read_table(s: Seq<char>) -> Seq<Seq<Seq<char>>>
    decreases s.len(),
{
    if s.len() == 0 || s[0] != '"' {
        Seq::empty()
    } else {
        let (fields, rest) = read_line(s);
        if 0 < rest.len() <= s.len() && rest[0] == '\n' {
            seq![fields] + read_table(rest.skip(1))
        } else {
            seq![fields]
        }
    }
}

/// A quoted field is read up to its closing mark.
proof fn lemma_read_field(field: Seq<char>, rest: Seq<char>)
    requires
        rest.len() > 0 ==> rest[0] != '"',
    ensures
        read_field(doubled(field) + seq!['"'] + rest) == (field, rest),
    decreases field.len(),
{
    let s = doubled(field) + seq!['"'] + rest;
    lemma_doubled(field);
    if field.len() == 0 {
        assert(s[0] == '"');
        assert(s.skip(1) =~= rest);
        assert(read_field(s).0 =~= field);
    } else {
        let tail = field.skip(1);
        lemma_read_field(tail, rest);
        if field[0] == '"' {
            assert(s[0] == '"' && s[1] == '"');
            assert(s.skip(2) =~= doubled(tail) + seq!['"'] + rest);
        } else {
            assert(s[0] == field[0]);
            assert(s.skip(1) =~= doubled(tail) + seq!['"'] + rest);
        }
        assert(seq![field[0]] + tail =~= field);
    }
}

/// Doubling quotation marks works from the front as well.
proof fn lemma_doubled(s: Seq<char>)
    ensures
        s.len() > 0 ==> doubled(s) == (if s[0] == '"' {
            seq!['"', '"']
        } else {
            seq![s[0]]
        }) + doubled(s.skip(1)),
    decreases s.len(),
{
    if s.len() == 1 {
        assert(s.drop_last() =~= Seq::empty());
        assert(s.skip(1) =~= Seq::empty());
        assert(doubled(s) =~= (if s[0] == '"' {
            seq!['"', '"']
        } else {
            seq![s[0]]
        }) + doubled(s.skip(1)));
    } else if s.len() > 1 {
        lemma_doubled(s.drop_last());
        assert(s.drop_last().skip(1) =~= s.skip(1).drop_last());
        assert(s.skip(1).last() == s.last());
        assert(doubled(s) =~= (if s[0] == '"' {
            seq!['"', '"']
        } else {
            seq![s[0]]
        }) + doubled(s.skip(1)));
    }
}

/// Joining works from the front as well.
proof fn lemma_joined(fields: Seq<Seq<char>>)
    requires
        fields.len() > 1,
    ensures
        joined(fields) == quoted(fields[0]) + seq![','] + joined(fields.skip(1)),
    decreases fields.len(),
{
    let front = fields.drop_last();
    if fields.len() == 2 {
        assert(joined(front) == quoted(fields[0]));
        assert(joined(fields.skip(1)) == quoted(fields[1]));
    } else {
        lemma_joined(front);
        assert(front.skip(1) =~= fields.skip(1).drop_last());
        assert(fields.skip(1).last() == fields.last());
        assert(joined(fields) =~= quoted(fields[0]) + seq![','] + joined(fields.skip(1)));
    }
}

/// Whatever a record holds, commas, line ends and quotation marks among it, its line reads back as
/// its fields, whatever follows it.
pub proof fn exported_record_reads_back(fields: Seq<Seq<char>>, rest: Seq<char>)
    requires
        fields.len() > 0,
    ensures
        read_line(csv_line(fields) + rest) == (fields, seq!['\n'] + rest),
    decreases fields.len(),
{
    let text = csv_line(fields) + rest;
    let first = fields[0];
    if fields.len() == 1 {
        let end = seq!['\n'] + rest;
        lemma_read_field(first, end);
        assert(text.skip(1) =~= doubled(first) + seq!['"'] + end);
        assert(read_line(text).0 =~= fields);
    } else {
        lemma_joined(fields);
        let tail = csv_line(fields.skip(1)) + rest;
        let after = seq![','] + tail;
        lemma_read_field(first, after);
        assert(text.skip(1) =~= doubled(first) + seq!['"'] + after);
        assert(after.skip(1) =~= tail);
        exported_record_reads_back(fields.skip(1), rest);
        assert(seq![first] + fields.skip(1) =~= fields);
    }
}

/// The text of a time that can be written.
pub open spec fn written_time(timestamp: u64) -> Seq<char> {
    rfc3339_text(timestamp * 1_000_000)->Ok_0
}

/// The members of a visit.
pub open spec fn visit_object(entry: HistoryEntryView) -> Seq<JsonMember> {
    json_fields(entry, written_time(entry.attempted_at), written_time(entry.updated_at))
}

/// The fields of a visit.
pub open spec fn visit_line(entry: HistoryEntryView) -> Seq<Seq<char>> {
    csv_fields(entry, written_time(entry.attempted_at), written_time(entry.updated_at))
}

/// The record of a visit whose times can be written.
pub open spec fn visit_record(format: ExportFormat, entry: HistoryEntryView) -> Seq<char> {
    match format {
        ExportFormat::Json => object_text(visit_object(entry)),
        ExportFormat::Csv => csv_line(visit_line(entry)),
    }
}

/// Whether the times of all visits can be written.
pub open spec fn writable(entries: Seq<HistoryEntryView>) -> bool {
    forall|i: int|
        0 <= i < entries.len() ==> rfc3339_text((#[trigger] entries[i]).attempted_at * 1_000_000) is Ok && rfc3339_text(
            entries[i].updated_at * 1_000_000,
        ) is Ok
}

/// What has been written and counted once the visits have been exported one after the other, or
/// why one of them could not be.
pub open spec fn written(format: ExportFormat, entries: Seq<HistoryEntryView>) -> Result<(Seq<char>, nat), Seq<char>>
    decreases entries.len(),
{
    if entries.len() == 0 {
        Ok((file_start(format), 0))
    } else {
        match written(format, entries.drop_last()) {
            Ok((text, count)) => match exported_record(format, entries.last()) {
                Ok(record) => Ok((text + record_piece(format, count, record), count + 1)),
                Err(message) => Err(message),
            },
            Err(message) => Err(message),
        }
    }
}

/// The file of the visits and how many it holds, or why one of them could not be written.
pub open spec fn exported_file(format: ExportFormat, entries: Seq<HistoryEntryView>) -> Result<
    (Seq<char>, nat),
    Seq<char>,
> {
    match written(format, entries) {
        Ok((text, count)) => Ok((text + file_end(format, count), count)),
        Err(message) => Err(message),
    }
}

/// The visits are written as their records.
proof fn lemma_written(format: ExportFormat, entries: Seq<HistoryEntryView>)
    ensures
        written(format, entries) is Ok <==> writable(entries),
        writable(entries) ==> written(format, entries) == Ok::<(Seq<char>, nat), Seq<char>>(
            (
                file_start(format) + pieces(format, entries.map_values(|e: HistoryEntryView| visit_record(format, e))),
                entries.len(),
            ),
        ),
    decreases entries.len(),
{
    let records = entries.map_values(|e: HistoryEntryView| visit_record(format, e));
    if entries.len() == 0 {
        assert(file_start(format) + pieces(format, records) =~= file_start(format));
    } else {
        let front = entries.drop_last();
        let last = entries.last();
        lemma_written(format, front);
        assert(records.drop_last() =~= front.map_values(|e: HistoryEntryView| visit_record(format, e)));
        if writable(entries) {
            assert forall|i: int| 0 <= i < front.len() implies rfc3339_text(
                (#[trigger] front[i]).attempted_at * 1_000_000,
            ) is Ok && rfc3339_text(front[i].updated_at * 1_000_000) is Ok by {
                assert(front[i] == entries[i]);
            }
            assert(entries[entries.len() - 1] == last);
            assert(written(format, entries)->Ok_0.0 =~= file_start(format) + pieces(format, records));
        } else if written(format, entries) is Ok {
            assert forall|i: int| 0 <= i < entries.len() implies rfc3339_text(
                (#[trigger] entries[i]).attempted_at * 1_000_000,
            ) is Ok && rfc3339_text(entries[i].updated_at * 1_000_000) is Ok by {
                if i < front.len() {
                    assert(front[i] == entries[i]);
                }
            }
        }
    }
}

/// Records with separators between them start with the first record.
proof fn lemma_separated(format: ExportFormat, records: Seq<Seq<char>>)
    requires
        records.len() > 1,
    ensures
        separated(format, records) == records[0] + separator(format) + separated(format, records.skip(1)),
    decreases records.len(),
{
    let front = records.drop_last();
    if records.len() > 2 {
        lemma_separated(format, front);
        assert(front.skip(1) =~= records.skip(1).drop_last());
    } else {
        assert(separated(format, front) == records[0]);
        assert(separated(format, records.skip(1)) == records[1]);
    }
    assert(separated(format, records) =~= records[0] + separator(format) + separated(format, records.skip(1)));
}

/// Objects in an exported array read back.
proof fn lemma_read_objects(objects: Seq<Seq<JsonMember>>, texts: Seq<Seq<char>>, rest: Seq<char>)
    requires
        objects.len() > 0,
        texts.len() == objects.len(),
        forall|i: int| 0 <= i < objects.len() ==> (#[trigger] objects[i]).len() > 0,
        forall|i: int| 0 <= i < objects.len() ==> #[trigger] texts[i] == object_text(objects[i]),
    ensures
        read_objects(separated(ExportFormat::Json, texts) + seq!['\n', ']'] + rest) == Some((objects, rest)),
        separated(ExportFormat::Json, texts).len() > 0,
        separated(ExportFormat::Json, texts)[0] == '{',
    decreases objects.len(),
{
    reveal_strlit(",\n");
    let s = separated(ExportFormat::Json, texts) + seq!['\n', ']'] + rest;
    let first = objects[0];
    assert(texts[0] == object_text(first));
    if objects.len() == 1 {
        let after = seq!['\n', ']'] + rest;
        written_object_reads_back(first, after);
        assert(s =~= object_text(first) + after);
        assert(skip_blank(s) == s);
        assert(skip_blank(after) == after.skip(1)) by {
            reveal_with_fuel(skip_blank, 2);
        }
        assert(after.skip(1).skip(1) =~= rest);
        assert(seq![first] =~= objects);
    } else {
        lemma_separated(ExportFormat::Json, texts);
        let tail = separated(ExportFormat::Json, texts.skip(1)) + seq!['\n', ']'] + rest;
        let after = seq![',', '\n'] + tail;
        written_object_reads_back(first, after);
        assert(s =~= object_text(first) + after);
        assert(skip_blank(s) == s);
        assert(skip_blank(after) == after);
        lemma_read_objects(objects.skip(1), texts.skip(1), rest);
        let inner = after.skip(1);
        assert(inner.skip(1) =~= tail);
        assert(skip_blank(inner) == skip_blank(tail));
        assert(tail[0] == '{');
        assert(read_objects(inner) == Some((objects.skip(1), rest)));
        assert(seq![first] + objects.skip(1) =~= objects);
    }
}

/// Visits are exported unless a time of one of them cannot be written. The exported file of JSON
/// is one array that holds each visit once, in order, and reads back as the members of all of
/// them; the count that is told is the number of visits. Without visits the file is an empty array.
pub proof fn exported_array_holds_every_visit(entries: Seq<HistoryEntryView>)
    ensures
        exported_file(ExportFormat::Json, entries) is Ok <==> writable(entries),
        writable(entries) ==> {
            let (text, count) = exported_file(ExportFormat::Json, entries)->Ok_0;
            &&& count == entries.len()
            &&& text == file_text(
                ExportFormat::Json,
                entries.map_values(|e: HistoryEntryView| visit_record(ExportFormat::Json, e)),
            )
            &&& read_array(text) == Some(entries.map_values(|e: HistoryEntryView| visit_object(e)))
            &&& entries.len() == 0 ==> text == "[]\n"@
        },
{
    let format = ExportFormat::Json;
    let texts = entries.map_values(|e: HistoryEntryView| visit_record(format, e));
    lemma_written(format, entries);
    pieces_make_the_file(format, texts);
    reveal_strlit("[");
    reveal_strlit("\n");
    reveal_strlit("]\n");
    reveal_strlit("[]\n");
    if writable(entries) {
        let text = exported_file(format, entries)->Ok_0.0;
        let objects = entries.map_values(|e: HistoryEntryView| visit_object(e));
        let end = seq!['\n'];
        assert(skip_blank(end).len() == 0) by {
            reveal_with_fuel(skip_blank, 2);
        }
        if entries.len() == 0 {
            assert(text =~= "[]\n"@);
            let inside = text.skip(1);
            assert(inside.skip(1) =~= end);
            assert(objects =~= Seq::empty());
            assert(skip_blank(text) == text && skip_blank(inside) == inside);
        } else {
            lemma_read_objects(objects, texts, end);
            let inside = separated(format, texts) + seq!['\n', ']'] + end;
            assert(text =~= seq!['['] + inside);
            assert(text.skip(1) =~= inside);
            assert(inside[0] == '{');
            assert(skip_blank(text) == text && skip_blank(inside) == inside);
        }
    }
}

/// Lines of an exported table read back.
proof fn lemma_read_table(lines: Seq<Seq<Seq<char>>>, texts: Seq<Seq<char>>)
    requires
        texts.len() == lines.len(),
        forall|i: int| 0 <= i < lines.len() ==> (#[trigger] lines[i]).len() > 0,
        forall|i: int| 0 <= i < lines.len() ==> #[trigger] texts[i] == csv_line(lines[i]),
    ensures
        read_table(separated(ExportFormat::Csv, texts)) == lines,
    decreases lines.len(),
{
    let s = separated(ExportFormat::Csv, texts);
    if lines.len() > 0 {
        let first = lines[0];
        let tail = separated(ExportFormat::Csv, texts.skip(1));
        assert(texts[0] == csv_line(first));
        if lines.len() > 1 {
            lemma_separated(ExportFormat::Csv, texts);
        }
        assert(s =~= csv_line(first) + tail);
        exported_record_reads_back(first, tail);
        lemma_read_table(lines.skip(1), texts.skip(1));
        assert((seq!['\n'] + tail).skip(1) =~= tail);
        assert(seq![first] + lines.skip(1) =~= lines);
    } else {
        assert(lines =~= Seq::empty());
    }
}

/// Visits are exported unless a time of one of them cannot be written. The exported file of
/// comma-separated values is the header and one line for each visit, in order, and the lines read
/// back as the fields of all visits; the count that is told is the number of visits.
pub proof fn exported_table_holds_every_visit(entries: Seq<HistoryEntryView>)
    ensures
        exported_file(ExportFormat::Csv, entries) is Ok <==> writable(entries),
        writable(entries) ==> {
            let (text, count) = exported_file(ExportFormat::Csv, entries)->Ok_0;
            let header = CSV_HEADER@.len() as int;
            &&& count == entries.len()
            &&& text == file_text(
                ExportFormat::Csv,
                entries.map_values(|e: HistoryEntryView| visit_record(ExportFormat::Csv, e)),
            )
            &&& text.take(header) == CSV_HEADER@
            &&& read_table(text.skip(header)) == entries.map_values(|e: HistoryEntryView| visit_line(e))
        },
{
    let format = ExportFormat::Csv;
    let texts = entries.map_values(|e: HistoryEntryView| visit_record(format, e));
    lemma_written(format, entries);
    pieces_make_the_file(format, texts);
    if writable(entries) {
        let text = exported_file(format, entries)->Ok_0.0;
        lemma_read_table(entries.map_values(|e: HistoryEntryView| visit_line(e)), texts);
        assert(text =~= CSV_HEADER@ + separated(format, texts));
        assert(text.take(CSV_HEADER@.len() as int) =~= CSV_HEADER@);
        assert(text.skip(CSV_HEADER@.len() as int) =~= separated(format, texts));
    }
}

/// What an export is told: how a step went, or a visit that was read.
pub enum ExportEvent {
    Outcome(Result<(), Seq<char>>),
    Visit(HistoryEntryView),
}

/// An export and what has come of it.
#[verifier::ext_equal]
pub struct ExportRun {
    pub progress: ExportProgressView,
    /// The steps that were taken.
    pub steps: Seq<ExportActionView>,
    /// The visits that were read.
    pub visits: Seq<HistoryEntryView>,
    /// What was written to the temporary file.
    pub text: Seq<char>,
    /// Whether a step failed or a visit could not be written.
    pub failed: bool,
    /// What the chosen file holds, if it is there.
    pub chosen: Option<Seq<char>>,
}

impl ExportRun {
    /// What comes of the export with one more event. Of the steps only the renaming of the
    /// temporary file, if it goes well, touches the chosen file.
    pub open spec fn told(self, event: ExportEvent) -> ExportRun {
        match self.progress {
            ExportProgressView::Finished(_) => self,
            ExportProgressView::Continue(task) => match event {
                ExportEvent::Visit(entry) => if task.stage is Visits && task.exporter.count < usize::MAX {
                    ExportRun {
                        progress: task.visited(entry),
                        steps: self.steps.push(task.action()),
                        visits: self.visits.push(entry),
                        failed: self.failed || exported_record(task.exporter.format, entry) is Err,
                        ..self
                    }
                } else {
                    self
                },
                ExportEvent::Outcome(outcome) => ExportRun {
                    progress: task.after(outcome),
                    steps: self.steps.push(task.action()),
                    text: match (task.action(), outcome) {
                        (ExportActionView::Write(piece), Ok(())) => self.text + piece,
                        _ => self.text,
                    },
                    failed: self.failed || outcome is Err,
                    chosen: match (task.action(), outcome) {
                        (ExportActionView::Rename(_), Ok(())) => Some(self.text),
                        _ => self.chosen,
                    },
                    ..self
                },
            },
        }
    }
}

/// What comes of an export that is told the events in turn, where `chosen` is what the chosen file
/// holds before.
pub open spec fn export_run(task: ExportTaskView, chosen: Option<Seq<char>>, events: Seq<ExportEvent>) -> ExportRun
    decreases events.len(),
{
    if events.len() == 0 {
        ExportRun {
            progress: ExportProgressView::Continue(task),
            steps: Seq::empty(),
            visits: Seq::empty(),
            text: Seq::empty(),
            failed: false,
            chosen,
        }
    } else {
        export_run(task, chosen, events.drop_last()).told(events.last())
    }
}

/// What holds of an export at each of its stages.
spec fn sound(run: ExportRun, format: ExportFormat, temporary: Seq<char>, chosen: Option<Seq<char>>) -> bool {
    match run.progress {
        ExportProgressView::Continue(task) => {
            let count = task.exporter.count as nat;
            &&& task.exporter.format == format
            &&& task.temporary == temporary
            &&& run.chosen == chosen
            &&& run.failed == task.stage is Remove
            &&& match task.stage {
                ExportStageView::Directory => run.steps.len() == 0 && count == 0 && run.text.len() == 0
                    && run.visits.len() == 0,
                ExportStageView::Create | ExportStageView::Start => count == 0 && run.text.len() == 0
                    && run.visits.len() == 0,
                ExportStageView::Visits | ExportStageView::End => written(format, run.visits) == Ok::<
                    (Seq<char>, nat),
                    Seq<char>,
                >((run.text, count)),
                ExportStageView::Record(piece) => written(format, run.visits) == Ok::<(Seq<char>, nat), Seq<char>>(
                    (run.text + piece, count),
                ),
                ExportStageView::Flush | ExportStageView::Replace => exported_file(format, run.visits) == Ok::<
                    (Seq<char>, nat),
                    Seq<char>,
                >((run.text, count)),
                ExportStageView::Remove(_) => true,
            }
        },
        ExportProgressView::Finished(Ok(count)) => {
            &&& exported_file(format, run.visits) == Ok::<(Seq<char>, nat), Seq<char>>((run.text, count as nat))
            &&& run.chosen == Some(run.text)
            &&& !run.failed
            &&& run.steps.len() > 0 && run.steps.last() == ExportActionView::Rename(temporary)
        },
        ExportProgressView::Finished(Err(_)) => {
            &&& run.chosen == chosen
            &&& run.failed
            &&& run.steps == seq![ExportActionView::MakeDirectory] || (run.steps.len() > 0 && run.steps.last()
                == ExportActionView::RemoveTemporary(temporary))
        },
    }
}

proof fn lemma_sound(
    format: ExportFormat,
    temporary: Seq<char>,
    in_directory: bool,
    chosen: Option<Seq<char>>,
    events: Seq<ExportEvent>,
)
    ensures
        sound(export_run(fresh_export(format, temporary, in_directory), chosen, events), format, temporary, chosen),
    decreases events.len(),
{
    let start = fresh_export(format, temporary, in_directory);
    if events.len() > 0 {
        let before = export_run(start, chosen, events.drop_last());
        let run = export_run(start, chosen, events);
        lemma_sound(format, temporary, in_directory, chosen, events.drop_last());
        match before.progress {
            ExportProgressView::Finished(_) => {},
            ExportProgressView::Continue(task) => match events.last() {
                ExportEvent::Visit(entry) => {
                    assert(before.visits.push(entry).drop_last() =~= before.visits);
                    assert(before.visits.push(entry).last() == entry);
                },
                ExportEvent::Outcome(outcome) => {
                    if task.stage is Start && outcome is Ok {
                        assert(run.text =~= file_start(format));
                    }
                    if task.stage is Directory && outcome is Err {
                        assert(run.steps =~= seq![ExportActionView::MakeDirectory]);
                    }
                },
            },
        }
    }
}

/// However the steps of an export go, it ends in one of two ways. Either no step failed, and the
/// chosen file is the complete file of all visits that were read, and the export tells their
/// number. Or a step failed, and the export ends in an error with the chosen file as it was and the
/// removal of the temporary one; only if not even the directory could be made, there is none. Until
/// it ends the chosen file is as it was.
pub proof fn export_replaces_the_file_or_leaves_it(
    format: ExportFormat,
    temporary: Seq<char>,
    in_directory: bool,
    chosen: Option<Seq<char>>,
    events: Seq<ExportEvent>,
)
    ensures
        ({
            let run = export_run(fresh_export(format, temporary, in_directory), chosen, events);
            match run.progress {
                ExportProgressView::Finished(Ok(count)) => {
                    &&& !run.failed
                    &&& count == run.visits.len()
                    &&& exported_file(format, run.visits) == Ok::<(Seq<char>, nat), Seq<char>>(
                        (run.text, run.visits.len()),
                    )
                    &&& run.chosen == Some(run.text)
                    &&& run.steps.last() == ExportActionView::Rename(temporary)
                },
                ExportProgressView::Finished(Err(_)) => {
                    &&& run.failed
                    &&& run.chosen == chosen
                    &&& run.steps == seq![ExportActionView::MakeDirectory] || run.steps.last()
                        == ExportActionView::RemoveTemporary(temporary)
                },
                ExportProgressView::Continue(_) => run.chosen == chosen,
            }
        }),
{
    lemma_sound(format, temporary, in_directory, chosen, events);
    lemma_written(format, export_run(fresh_export(format, temporary, in_directory), chosen, events).visits);
}

/// The temporary file is renamed only after every step before went well: it holds the complete file
/// of all visits that were read.
pub proof fn renaming_follows_every_write(
    format: ExportFormat,
    temporary: Seq<char>,
    in_directory: bool,
    chosen: Option<Seq<char>>,
    events: Seq<ExportEvent>,
    task: ExportTaskView,
)
    requires
        export_run(fresh_export(format, temporary, in_directory), chosen, events).progress
            == ExportProgressView::Continue(task),
        task.action() is Rename,
    ensures
        ({
            let run = export_run(fresh_export(format, temporary, in_directory), chosen, events);
            &&& !run.failed
            &&& task.action() == ExportActionView::Rename(temporary)
            &&& exported_file(format, run.visits) == Ok::<(Seq<char>, nat), Seq<char>>((run.text, run.visits.len()))
        }),
{
    lemma_sound(format, temporary, in_directory, chosen, events);
    lemma_written(format, export_run(fresh_export(format, temporary, in_directory), chosen, events).visits);
}

/// Once the directory is there, a step that fails, or a visit that cannot be written, is followed by
/// the removal of the temporary file, and however that goes the export ends in the error.
pub proof fn failure_removes_the_temporary_file(
    task: ExportTaskView,
    error: Seq<char>,
    entry: HistoryEntryView,
    outcome: Result<(), Seq<char>>,
)
    requires
        !(task.stage is Directory) && !(task.stage is Remove),
    ensures
        ({
            let message = if task.stage is Create {
                "Could not create export: "@ + error
            } else {
                error
            };
            &&& task.after(Err(error)) matches ExportProgressView::Continue(next)
            &&& next.action() == ExportActionView::RemoveTemporary(task.temporary)
            &&& next.after(outcome) == ExportProgressView::Finished(Err(message))
        }),
        exported_record(task.exporter.format, entry) matches Err(message) ==> {
            &&& task.visited(entry) matches ExportProgressView::Continue(next)
            &&& next.action() == ExportActionView::RemoveTemporary(task.temporary)
            &&& next.after(outcome) == ExportProgressView::Finished(Err(message))
        },
{
}

/// Names with commas between them.
pub open spec fn comma_separated(names: Seq<Seq<char>>) -> Seq<char>
    decreases names.len(),
{
    if names.len() == 0 {
        Seq::empty()
    } else if names.len() == 1 {
        names[0]
    } else {
        names[0] + seq![','] + comma_separated(names.skip(1))
    }
}

/// The names of the columns, in the order of the header.
pub open spec fn column_names() -> Seq<Seq<char>> {
    seq![
        "id"@,
        "attempted_at"@,
        "attempted_at_iso"@,
        "updated_at"@,
        "updated_at_iso"@,
        "url"@,
        "title"@,
        "status"@,
        "source"@,
        "submitted_input"@,
        "search_query"@,
        "search_url"@,
    ]
}

/// An optional value in a file that has no word for what is absent.
pub open spec fn written_as(value: Option<Seq<char>>) -> Seq<char> {
    if value is Some {
        value->0
    } else {
        Seq::empty()
    }
}

/// The value of a visit that has the name of a column, with its two times written as given.
pub open spec fn value_named(
    entry: HistoryEntryView,
    attempted: Seq<char>,
    updated: Seq<char>,
    name: Seq<char>,
) -> Option<Seq<char>> {
    if name == "id"@ {
        Some(decimal(entry.id as nat))
    } else if name == "attempted_at"@ {
        Some(decimal(entry.attempted_at as nat))
    } else if name == "attempted_at_iso"@ {
        Some(attempted)
    } else if name == "updated_at"@ {
        Some(decimal(entry.updated_at as nat))
    } else if name == "updated_at_iso"@ {
        Some(updated)
    } else if name == "url"@ {
        Some(entry.url)
    } else if name == "title"@ {
        Some(written_as(entry.title))
    } else if name == "status"@ {
        Some(entry.status.name())
    } else if name == "source"@ {
        Some(entry.source)
    } else if name == "submitted_input"@ {
        Some(written_as(entry.submitted_input))
    } else if name == "search_query"@ {
        Some(written_as(entry.search_query))
    } else if name == "search_url"@ {
        Some(written_as(entry.search_url))
    } else {
        None
    }
}

/// The header names the columns, and the field of a visit's line at the place of a name is the
/// visit's value of that name, for every column.
pub proof fn fields_stand_under_their_names(
    entry: HistoryEntryView,
    attempted: Seq<char>,
    updated: Seq<char>,
    rest: Seq<char>,
)
    ensures
        CSV_HEADER@ == comma_separated(column_names()) + seq!['\n'],
        ({
            let line = read_line(csv_line(csv_fields(entry, attempted, updated)) + rest).0;
            &&& line.len() == column_names().len()
            &&& forall|i: int|
                0 <= i < line.len() ==> Some(#[trigger] line[i]) == value_named(
                    entry,
                    attempted,
                    updated,
                    column_names()[i],
                )
        }),
{
    lemma_header();
    lemma_columns_differ();
    exported_record_reads_back(csv_fields(entry, attempted, updated), rest);
}

/// The header is the names of the columns.
#[verifier::spinoff_prover]
#[verifier::rlimit(40)]
proof fn lemma_header()
    ensures
        CSV_HEADER@ == comma_separated(column_names()) + seq!['\n'],
{
    reveal_strlit(
        "id,attempted_at,attempted_at_iso,updated_at,updated_at_iso,url,title,status,source,submitted_input,search_query,search_url\n",
    );
    reveal_strlit("id");
    reveal_strlit("attempted_at");
    reveal_strlit("attempted_at_iso");
    reveal_strlit("updated_at");
    reveal_strlit("updated_at_iso");
    reveal_strlit("url");
    reveal_strlit("title");
    reveal_strlit("status");
    reveal_strlit("source");
    reveal_strlit("submitted_input");
    reveal_strlit("search_query");
    reveal_strlit("search_url");
    let names = column_names();
    let header = CSV_HEADER@;
    assert(header.len() == 123 && header[122] == '\n');
    assert(header.subrange(112, 122) =~= "search_url"@);
    lemma_last_column(names, 11);
    assert(comma_separated(names.skip(11)) == header.subrange(112, 122));
    assert(header.subrange(99, 111) =~= "search_query"@);
    lemma_column(names, 10, header, 99, 122);
    assert(header.subrange(83, 98) =~= "submitted_input"@);
    lemma_column(names, 9, header, 83, 122);
    assert(header.subrange(76, 82) =~= "source"@);
    lemma_column(names, 8, header, 76, 122);
    assert(header.subrange(69, 75) =~= "status"@);
    lemma_column(names, 7, header, 69, 122);
    assert(header.subrange(63, 68) =~= "title"@);
    lemma_column(names, 6, header, 63, 122);
    assert(header.subrange(59, 62) =~= "url"@);
    lemma_column(names, 5, header, 59, 122);
    assert(header.subrange(44, 58) =~= "updated_at_iso"@);
    lemma_column(names, 4, header, 44, 122);
    assert(header.subrange(33, 43) =~= "updated_at"@);
    lemma_column(names, 3, header, 33, 122);
    assert(header.subrange(16, 32) =~= "attempted_at_iso"@);
    lemma_column(names, 2, header, 16, 122);
    assert(header.subrange(3, 15) =~= "attempted_at"@);
    lemma_column(names, 1, header, 3, 122);
    assert(header.subrange(0, 2) =~= "id"@);
    lemma_column(names, 0, header, 0, 122);
    assert(names.skip(0) =~= names);
    assert(header =~= header.subrange(0, 122) + seq!['\n']);
}

/// Names from the last one on are that name.
proof fn lemma_last_column(names: Seq<Seq<char>>, i: int)
    requires
        0 <= i == names.len() - 1,
    ensures
        comma_separated(names.skip(i)) == names[i],
{
}

/// Where a text holds a name, a comma and the names behind it, it holds the names from that one on.
proof fn lemma_column(names: Seq<Seq<char>>, i: int, text: Seq<char>, from: int, to: int)
    requires
        0 <= i < names.len() - 1,
        0 <= from && from + names[i].len() + 1 <= to <= text.len(),
        text.subrange(from, from + names[i].len()) == names[i],
        text[from + names[i].len()] == ',',
        text.subrange(from + names[i].len() + 1, to) == comma_separated(names.skip(i + 1)),
    ensures
        text.subrange(from, to) == comma_separated(names.skip(i)),
{
    let middle = from + names[i].len();
    assert(names.skip(i).skip(1) =~= names.skip(i + 1));
    assert(text.subrange(from, to) =~= text.subrange(from, middle) + seq![','] + text.subrange(middle + 1, to));
}

/// The names of the columns differ.
proof fn lemma_columns_differ()
    ensures
        forall|i: int, j: int|
            0 <= i < j < column_names().len() ==> #[trigger] column_names()[i] != #[trigger] column_names()[j],
{
    reveal_strlit("id");
    reveal_strlit("attempted_at");
    reveal_strlit("attempted_at_iso");
    reveal_strlit("updated_at");
    reveal_strlit("updated_at_iso");
    reveal_strlit("url");
    reveal_strlit("title");
    reveal_strlit("status");
    reveal_strlit("source");
    reveal_strlit("submitted_input");
    reveal_strlit("search_query");
    reveal_strlit("search_url");
    let names = column_names();
    assert(names[0].len() == 2);
    assert(names[1].len() == 12);
    assert(names[2].len() == 16);
    assert(names[3].len() == 10);
    assert(names[4].len() == 14);
    assert(names[5].len() == 3);
    assert(names[6].len() == 5);
    assert(names[7].len() == 6);
    assert(names[8].len() == 6);
    assert(names[9].len() == 15);
    assert(names[10].len() == 12);
    assert(names[11].len() == 10);
    assert(names[1][0] == 'a' && names[10][0] == 's');
    assert(names[3][0] == 'u' && names[11][0] == 's');
    assert(names[7][1] == 't' && names[8][1] == 'o');
}

/// The keys of a visit's object, in their order.
pub open spec fn object_keys() -> Seq<Seq<char>> {
    seq![
        "id"@,
        "attemptedAt"@,
        "updatedAt"@,
        "url"@,
        "title"@,
        "status"@,
        "source"@,
        "submittedInput"@,
        "searchQuery"@,
        "searchUrl"@,
        "attemptedAtIso"@,
        "updatedAtIso"@,
    ]
}

/// A text, or null in place of one that is absent.
pub open spec fn text_or_null(value: Option<Seq<char>>) -> JsonValue {
    if value is Some {
        JsonValue::Text(value->0)
    } else {
        JsonValue::Null
    }
}

/// The value of a visit that has the name of a key, with its two times written as given.
pub open spec fn value_keyed(
    entry: HistoryEntryView,
    attempted: Seq<char>,
    updated: Seq<char>,
    key: Seq<char>,
) -> Option<JsonValue> {
    if key == "id"@ {
        Some(JsonValue::Number(entry.id as nat))
    } else if key == "attemptedAt"@ {
        Some(JsonValue::Number(entry.attempted_at as nat))
    } else if key == "updatedAt"@ {
        Some(JsonValue::Number(entry.updated_at as nat))
    } else if key == "url"@ {
        Some(JsonValue::Text(entry.url))
    } else if key == "title"@ {
        Some(text_or_null(entry.title))
    } else if key == "status"@ {
        Some(JsonValue::Text(entry.status.name()))
    } else if key == "source"@ {
        Some(JsonValue::Text(entry.source))
    } else if key == "submittedInput"@ {
        Some(text_or_null(entry.submitted_input))
    } else if key == "searchQuery"@ {
        Some(text_or_null(entry.search_query))
    } else if key == "searchUrl"@ {
        Some(text_or_null(entry.search_url))
    } else if key == "attemptedAtIso"@ {
        Some(JsonValue::Text(attempted))
    } else if key == "updatedAtIso"@ {
        Some(JsonValue::Text(updated))
    } else {
        None
    }
}

/// The object of a visit reads back with each of its keys once and in order, and under each key
/// stands the visit's value of that name; what is absent is null.
pub proof fn members_stand_under_their_keys(
    entry: HistoryEntryView,
    attempted: Seq<char>,
    updated: Seq<char>,
    rest: Seq<char>,
)
    ensures
        ({
            let text = object_text(json_fields(entry, attempted, updated)) + rest;
            &&& text[0] == '{'
            &&& crate::json::read_members(text.skip(1)) matches Some((members, after))
            &&& after == rest
            &&& members.len() == object_keys().len()
            &&& forall|i: int|
                0 <= i < members.len() ==> {
                    &&& (#[trigger] members[i]).key == object_keys()[i]
                    &&& Some(members[i].value) == value_keyed(entry, attempted, updated, object_keys()[i])
                }
        }),
{
    reveal_strlit("id");
    reveal_strlit("attemptedAt");
    reveal_strlit("updatedAt");
    reveal_strlit("url");
    reveal_strlit("title");
    reveal_strlit("status");
    reveal_strlit("source");
    reveal_strlit("submittedInput");
    reveal_strlit("searchQuery");
    reveal_strlit("searchUrl");
    reveal_strlit("attemptedAtIso");
    reveal_strlit("updatedAtIso");
    let keys = object_keys();
    assert(keys[0].len() == 2);
    assert(keys[1].len() == 11);
    assert(keys[2].len() == 9);
    assert(keys[3].len() == 3);
    assert(keys[4].len() == 5);
    assert(keys[5].len() == 6);
    assert(keys[6].len() == 6);
    assert(keys[7].len() == 14);
    assert(keys[8].len() == 11);
    assert(keys[9].len() == 9);
    assert(keys[10].len() == 14);
    assert(keys[11].len() == 12);
    assert(keys[1][0] == 'a' && keys[8][0] == 's');
    assert(keys[2][0] == 'u' && keys[9][0] == 's');
    assert(keys[5][1] == 't' && keys[6][1] == 'o');
    assert(keys[7][0] == 's' && keys[10][0] == 'a');
    written_object_reads_back(json_fields(entry, attempted, updated), rest);
}

/// Each time in an exported file is that of its visit, taken from milliseconds: a visit is written
/// with the two times that belong to its two timestamps, or not at all.
pub proof fn exported_times_are_the_visits_own(entry: HistoryEntryView)
    ensures
        match (rfc3339_text(1_000_000 * entry.attempted_at), rfc3339_text(1_000_000 * entry.updated_at)) {
            (Ok(attempted), Ok(updated)) => {
                &&& exported_record(ExportFormat::Json, entry) == Ok::<Seq<char>, Seq<char>>(
                    object_text(json_fields(entry, attempted, updated)),
                )
                &&& exported_record(ExportFormat::Csv, entry) == Ok::<Seq<char>, Seq<char>>(
                    csv_line(csv_fields(entry, attempted, updated)),
                )
            },
            (Err(message), _) => exported_record(ExportFormat::Json, entry) == Err::<Seq<char>, Seq<char>>(message)
                && exported_record(ExportFormat::Csv, entry) == Err::<Seq<char>, Seq<char>>(message),
            (Ok(_), Err(message)) => exported_record(ExportFormat::Json, entry) == Err::<Seq<char>, Seq<char>>(message)
                && exported_record(ExportFormat::Csv, entry) == Err::<Seq<char>, Seq<char>>(message),
        },
{
}

/// An export goes through its steps in order: the directory if there is one to make, the temporary
/// file, what comes first, the visits, what comes last, the disk and the renaming. Its success tells
/// how many visits were counted.
pub proof fn export_takes_its_steps_in_order(task: ExportTaskView, entry: HistoryEntryView)
    ensures
        task.stage is Directory ==> task.action() is MakeDirectory && task.after(Ok(())) == task.at(
            ExportStageView::Create,
        ),
        task.stage is Create ==> task.action() == ExportActionView::Create(task.temporary) && task.after(Ok(()))
            == task.at(ExportStageView::Start),
        task.stage is Start ==> task.action() is Write && task.after(Ok(())) == task.at(ExportStageView::Visits),
        task.stage is Visits ==> task.action() is ReadVisit && task.after(Ok(())) == task.at(ExportStageView::End),
        task.stage is Record ==> task.action() == ExportActionView::Write(task.stage->Record_0) && task.after(Ok(()))
            == task.at(ExportStageView::Visits),
        task.stage is End ==> task.action() is Write && task.after(Ok(())) == task.at(ExportStageView::Flush),
        task.stage is Flush ==> task.action() is Flush && task.after(Ok(())) == task.at(ExportStageView::Replace),
        task.stage is Replace ==> task.action() == ExportActionView::Rename(task.temporary) && task.after(Ok(()))
            == ExportProgressView::Finished(Ok(task.exporter.count)),
        exported_record(task.exporter.format, entry) is Ok && task.exporter.count < usize::MAX ==> (task.visited(
            entry,
        ) matches ExportProgressView::Continue(next) && next.stage is Record && next.exporter.count
            == task.exporter.count + 1),
{
}

/// The temporary file of an export is hidden, ends in `.tmp` and has the name of the chosen file in
/// it, or a name of its own where that has none; different draws give different names.
pub proof fn temporary_name_is_drawn_for_the_file(name: Seq<char>, unique: Seq<char>, other: Seq<char>)
    ensures
        temp_name(Some(name), unique) == "."@ + name + "."@ + unique + ".tmp"@,
        temp_name(None, unique) == "."@ + "folio-export"@ + "."@ + unique + ".tmp"@,
        unique.len() == other.len() && unique != other ==> temp_name(Some(name), unique) != temp_name(Some(name), other),
{
    if unique.len() == other.len() && temp_name(Some(name), unique) == temp_name(Some(name), other) {
        let at = "."@.len() + name.len() + "."@.len();
        assert(temp_name(Some(name), unique).subrange(at as int, (at + unique.len()) as int) =~= unique);
        assert(temp_name(Some(name), other).subrange(at as int, (at + unique.len()) as int) =~= other);
    }
}

/// An export starts in the format that its name says: `json` or `csv`, and no other is known.
pub proof fn formats_go_by_their_names(name: Seq<char>)
    ensures
        format_named("json"@) == Some(ExportFormat::Json),
        format_named("csv"@) == Some(ExportFormat::Csv),
        name != "json"@ && name != "csv"@ ==> format_named(name) is None,
{
    reveal_strlit("json");
    reveal_strlit("csv");
    assert("json"@.len() == 4 && "csv"@.len() == 3);
}

/// An export begins with nothing counted, by making the directory of the chosen file where its path
/// has one, and otherwise by creating the temporary file.
pub proof fn export_begins_with_the_directory(format: ExportFormat, temporary: Seq<char>)
    ensures
        fresh_export(format, temporary, true).action() is MakeDirectory,
        fresh_export(format, temporary, false).action() == ExportActionView::Create(temporary),
        fresh_export(format, temporary, true).exporter.count == 0,
        fresh_export(format, temporary, false).exporter.count == 0,
        fresh_export(format, temporary, true).exporter.format == format,
        fresh_export(format, temporary, false).exporter.format == format,
{
}

} // verus!
