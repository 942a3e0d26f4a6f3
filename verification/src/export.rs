//! The exported ledger, as JSON or as comma-separated values.

use crate::history::{HistoryEntry, HistoryEntryView};
use crate::json::{
    keys_differ, number_members, object_text, optional_value, text_members, write_object, JsonMember, JsonValue,
};
use crate::profile::lower_hex_digit;
use crate::tasks::outcome_view;
use crate::text::{chars_of, decimal, decimal_text, opt_text, or_empty, same_text};
use crate::timestamp::{rfc3339_text, text_outcome, timestamp_iso, LAST_TIMESTAMP};
use vstd::prelude::*;

verus! {

/// A format of exported files.
#[derive(Clone, Copy, Debug, PartialEq, Eq, Structural)]
pub enum ExportFormat {
    Json,
    Csv,
}

/// The first line of an exported file of comma-separated values.
pub const CSV_HEADER: &'static str = "id,attempted_at,attempted_at_iso,updated_at,updated_at_iso,url,title,status,source,submitted_input,search_query,search_url\n";

/// The format with the given name.
pub open spec fn format_named(name: Seq<char>) -> Option<ExportFormat> {
    if name == "json"@ {
        Some(ExportFormat::Json)
    } else if name == "csv"@ {
        Some(ExportFormat::Csv)
    } else {
        None
    }
}

impl ExportFormat {
    /// The format with the given name.
    pub fn parse(name: &str) -> (r: Result<ExportFormat, String>)
        ensures
            match r {
                Ok(format) => name@ == match format {
                    ExportFormat::Json => "json"@,
                    ExportFormat::Csv => "csv"@,
                },
                Err(message) => {
                    &&& name@ != "json"@ && name@ != "csv"@
                    &&& message@ == "Export format must be json or csv."@
                },
            },
            match r {
                Ok(format) => format_named(name@) == Some(format),
                Err(_) => format_named(name@) is None,
            },
    {
        if same_text(name, "json") {
            Ok(ExportFormat::Json)
        } else if same_text(name, "csv") {
            Ok(ExportFormat::Csv)
        } else {
            Err("Export format must be json or csv.".to_owned())
        }
    }
}

/// `s` with each quotation mark written twice.
pub open spec fn doubled(s: Seq<char>) -> Seq<char>
    decreases s.len(),
{
    if s.len() == 0 {
        Seq::empty()
    } else if s.last() == '"' {
        doubled(s.drop_last()).push('"').push('"')
    } else {
        doubled(s.drop_last()).push(s.last())
    }
}

/// `s` in quotation marks.
pub open spec fn quoted(s: Seq<char>) -> Seq<char> {
    seq!['"'] + doubled(s) + seq!['"']
}

/// Fields in quotation marks, with commas between them.
pub open spec fn joined(fields: Seq<Seq<char>>) -> Seq<char>
    decreases fields.len(),
{
    if fields.len() == 0 {
        Seq::empty()
    } else if fields.len() == 1 {
        quoted(fields[0])
    } else {
        joined(fields.drop_last()) + seq![','] + quoted(fields.last())
    }
}

/// The line of a record.
pub open spec fn csv_line(fields: Seq<Seq<char>>) -> Seq<char> {
    joined(fields).push('\n')
}

/// The fields of a visit whose two times are written as given.
pub open spec fn csv_fields(entry: HistoryEntryView, attempted: Seq<char>, updated: Seq<char>) -> Seq<Seq<char>> {
    seq![
        decimal(entry.id as nat),
        decimal(entry.attempted_at as nat),
        attempted,
        decimal(entry.updated_at as nat),
        updated,
        entry.url,
        or_empty(entry.title),
        entry.status.name(),
        entry.source,
        or_empty(entry.submitted_input),
        or_empty(entry.search_query),
        or_empty(entry.search_url),
    ]
}

/// Puts the text at the end, in quotation marks.
fn append_quoted(line: &mut String, text: &str)
    ensures
        final(line)@ == old(line)@ + quoted(text@),
{
    let chars: Vec<char> = chars_of(text);
    let ghost start = line@;
    line.push('"');
    assert(text@.take(0) =~= Seq::empty());
    assert(line@ =~= start + seq!['"'] + doubled(text@.take(0)));
    let mut i: usize = 0;
    while i < chars.len()
        invariant
            i <= chars@.len(),
            chars@ == text@,
            line@ == start + seq!['"'] + doubled(text@.take(i as int)),
        decreases chars@.len() - i,
    {
        let ghost before = text@.take(i as int);
        let ghost after = text@.take(i + 1);
        assert(after.drop_last() =~= before);
        assert(after.last() == chars@[i as int]);
        if chars[i] == '"' {
            line.push('"');
        }
        line.push(chars[i]);
        i = i + 1;
        assert(line@ =~= start + seq!['"'] + doubled(after));
    }
    assert(text@.take(i as int) =~= text@);
    line.push('"');
    assert(line@ =~= start + quoted(text@));
}

/// Puts a comma and the text at the end, in quotation marks.
fn append_field(line: &mut String, text: &str, fields: Ghost<Seq<Seq<char>>>)
    requires
        fields@.len() > 0,
        old(line)@ == joined(fields@),
    ensures
        final(line)@ == joined(fields@.push(text@)),
{
    line.push(',');
    let ghost start = line@;
    append_quoted(line, text);
    assert(fields@.push(text@).drop_last() =~= fields@);
    assert(line@ =~= joined(fields@) + seq![','] + quoted(text@));
}

/// Puts a comma and the optional text at the end, in quotation marks.
fn append_optional(line: &mut String, text: &Option<String>, fields: Ghost<Seq<Seq<char>>>)
    requires
        fields@.len() > 0,
        old(line)@ == joined(fields@),
    ensures
        final(line)@ == joined(fields@.push(or_empty(opt_text(*text)))),
{
    match text {
        Some(present) => append_field(line, present.as_str(), fields),
        None => {
            let empty: String = String::new();
            assert(empty@ =~= Seq::empty());
            append_field(line, empty.as_str(), fields);
        },
    }
}

/// The line of a visit whose two times are written as given.
pub fn csv_record(entry: &HistoryEntry, attempted: &str, updated: &str) -> (r: String)
    ensures
        r@ == csv_line(csv_fields(entry@, attempted@, updated@)),
{
    let id: String = decimal_text(entry.id);
    let attempted_at: String = decimal_text(entry.attempted_at);
    let updated_at: String = decimal_text(entry.updated_at);
    let ghost all = csv_fields(entry@, attempted@, updated@);
    let mut line: String = String::new();
    append_quoted(&mut line, id.as_str());
    assert(line@ =~= joined(all.take(1)));
    proof {
        lemma_takes(all);
    }
    append_field(&mut line, attempted_at.as_str(), Ghost(all.take(1)));
    append_field(&mut line, attempted, Ghost(all.take(2)));
    append_field(&mut line, updated_at.as_str(), Ghost(all.take(3)));
    append_field(&mut line, updated, Ghost(all.take(4)));
    append_field(&mut line, entry.url.as_str(), Ghost(all.take(5)));
    append_optional(&mut line, &entry.title, Ghost(all.take(6)));
    append_field(&mut line, entry.status.as_database_value(), Ghost(all.take(7)));
    append_field(&mut line, entry.source.as_str(), Ghost(all.take(8)));
    append_optional(&mut line, &entry.submitted_input, Ghost(all.take(9)));
    append_optional(&mut line, &entry.search_query, Ghost(all.take(10)));
    append_optional(&mut line, &entry.search_url, Ghost(all.take(11)));
    assert(all.take(12) =~= all);
    line.push('\n');
    line
}

/// The first fields of a record and one more are the first fields again.
proof fn lemma_takes(all: Seq<Seq<char>>)
    ensures
        forall|n: int| 0 <= n < all.len() ==> #[trigger] all.take(n).push(all[n]) == all.take(n + 1),
{
    assert forall|n: int| 0 <= n < all.len() implies #[trigger] all.take(n).push(all[n]) == all.take(n + 1) by {
        assert(all.take(n).push(all[n]) =~= all.take(n + 1));
    }
}

/// The line of a visit, or why one of its times cannot be written.
pub open spec fn exported_line(entry: HistoryEntryView) -> Result<Seq<char>, Seq<char>> {
    match (rfc3339_text(entry.attempted_at * 1_000_000), rfc3339_text(entry.updated_at * 1_000_000)) {
        (Ok(attempted), Ok(updated)) => Ok(csv_line(csv_fields(entry, attempted, updated))),
        (Err(message), _) => Err(message),
        (_, Err(message)) => Err(message),
    }
}

/// The two times of a visit as they are written.
pub fn entry_times(entry: &HistoryEntry) -> (r: Result<(String, String), String>)
    ensures
        match r {
            Ok((attempted, updated)) => {
                &&& rfc3339_text(entry@.attempted_at * 1_000_000) == Ok::<Seq<char>, Seq<char>>(attempted@)
                &&& rfc3339_text(entry@.updated_at * 1_000_000) == Ok::<Seq<char>, Seq<char>>(updated@)
            },
            Err(message) => match rfc3339_text(entry@.attempted_at * 1_000_000) {
                Err(first) => message@ == first,
                Ok(_) => rfc3339_text(entry@.updated_at * 1_000_000) == Err::<Seq<char>, Seq<char>>(message@),
            },
        },
        r is Ok <==> entry@.attempted_at <= LAST_TIMESTAMP && entry@.updated_at <= LAST_TIMESTAMP,
{
    let attempted: String = match timestamp_iso(entry.attempted_at) {
        Ok(text) => text,
        Err(message) => {
            return Err(message);
        },
    };
    match timestamp_iso(entry.updated_at) {
        Ok(updated) => Ok((attempted, updated)),
        Err(message) => Err(message),
    }
}

/// The line of a visit.
pub fn export_csv(entry: &HistoryEntry) -> (r: Result<String, String>)
    ensures
        text_outcome(r) == exported_line(entry@),
        r is Ok <==> entry@.attempted_at <= LAST_TIMESTAMP && entry@.updated_at <= LAST_TIMESTAMP,
{
    match entry_times(entry) {
        Ok((attempted, updated)) => Ok(csv_record(entry, attempted.as_str(), updated.as_str())),
        Err(message) => Err(message),
    }
}

/// A member that holds a number.
pub open spec fn number_member(key: Seq<char>, number: u64) -> JsonMember {
    JsonMember { key, value: JsonValue::Number(number as nat) }
}

/// A member that holds a text.
pub open spec fn text_member(key: Seq<char>, text: Option<Seq<char>>) -> JsonMember {
    JsonMember { key, value: optional_value(text) }
}

/// The members of a visit whose two times are written as given.
pub open spec fn json_fields(entry: HistoryEntryView, attempted: Seq<char>, updated: Seq<char>) -> Seq<JsonMember> {
    seq![
        number_member("id"@, entry.id),
        number_member("attemptedAt"@, entry.attempted_at),
        number_member("updatedAt"@, entry.updated_at),
        text_member("url"@, Some(entry.url)),
        text_member("title"@, entry.title),
        text_member("status"@, Some(entry.status.name())),
        text_member("source"@, Some(entry.source)),
        text_member("submittedInput"@, entry.submitted_input),
        text_member("searchQuery"@, entry.search_query),
        text_member("searchUrl"@, entry.search_url),
        text_member("attemptedAtIso"@, Some(attempted)),
        text_member("updatedAtIso"@, Some(updated)),
    ]
}

/// The keys of a visit differ.
proof fn lemma_json_keys(entry: HistoryEntryView, attempted: Seq<char>, updated: Seq<char>)
    ensures
        keys_differ(json_fields(entry, attempted, updated)),
{
    reveal_strlit("id");
    reveal_strlit("attemptedAt");
    reveal_strlit("updatedAt");
    reveal_strlit("url");
    reveal_strlit("title");
    reveal_strlit("status");
    reveal_strlit("source");
    reveal_strlit("submittedInput");
    reveal_strlit("searchQuery");
    reveal_strlit("searchUrl");
    reveal_strlit("attemptedAtIso");
    reveal_strlit("updatedAtIso");
    let fields = json_fields(entry, attempted, updated);
    assert(fields[0].key.len() == 2);
    assert(fields[1].key.len() == 11);
    assert(fields[2].key.len() == 9);
    assert(fields[3].key.len() == 3);
    assert(fields[4].key.len() == 5);
    assert(fields[5].key.len() == 6);
    assert(fields[6].key.len() == 6);
    assert(fields[7].key.len() == 14);
    assert(fields[8].key.len() == 11);
    assert(fields[9].key.len() == 9);
    assert(fields[10].key.len() == 14);
    assert(fields[11].key.len() == 12);
    assert(fields[1].key[0] == 'a' && fields[8].key[0] == 's');
    assert(fields[2].key[0] == 'u' && fields[9].key[0] == 's');
    assert(fields[5].key[1] == 't' && fields[6].key[1] == 'o');
    assert(fields[7].key[0] == 's' && fields[10].key[0] == 'a');
}

/// The object of a visit whose two times are written as given.
pub fn json_record(entry: &HistoryEntry, attempted: &str, updated: &str) -> (r: String)
    ensures
        r@ == object_text(json_fields(entry@, attempted@, updated@)),
{
    let mut numbers: Vec<(String, u64)> = Vec::new();
    numbers.push(("id".to_owned(), entry.id));
    numbers.push(("attemptedAt".to_owned(), entry.attempted_at));
    numbers.push(("updatedAt".to_owned(), entry.updated_at));
    let mut texts: Vec<(String, Option<String>)> = Vec::new();
    texts.push(("url".to_owned(), Some(entry.url.clone())));
    texts.push(("title".to_owned(), entry.title.clone()));
    texts.push(("status".to_owned(), Some(entry.status.as_database_value().to_owned())));
    texts.push(("source".to_owned(), Some(entry.source.clone())));
    texts.push(("submittedInput".to_owned(), entry.submitted_input.clone()));
    texts.push(("searchQuery".to_owned(), entry.search_query.clone()));
    texts.push(("searchUrl".to_owned(), entry.search_url.clone()));
    texts.push(("attemptedAtIso".to_owned(), Some(attempted.to_owned())));
    texts.push(("updatedAtIso".to_owned(), Some(updated.to_owned())));
    proof {
        lemma_json_keys(entry@, attempted@, updated@);
        assert(number_members(numbers@) + text_members(texts@) =~= json_fields(entry@, attempted@, updated@));
    }
    write_object(&numbers, &texts)
}

/// The object of a visit, or why one of its times cannot be written.
pub open spec fn exported_object(entry: HistoryEntryView) -> Result<Seq<char>, Seq<char>> {
    match (rfc3339_text(entry.attempted_at * 1_000_000), rfc3339_text(entry.updated_at * 1_000_000)) {
        (Ok(attempted), Ok(updated)) => Ok(object_text(json_fields(entry, attempted, updated))),
        (Err(message), _) => Err(message),
        (_, Err(message)) => Err(message),
    }
}

/// The object of a visit.
pub fn export_json(entry: &HistoryEntry) -> (r: Result<String, String>)
    ensures
        text_outcome(r) == exported_object(entry@),
        r is Ok <==> entry@.attempted_at <= LAST_TIMESTAMP && entry@.updated_at <= LAST_TIMESTAMP,
{
    match entry_times(entry) {
        Ok((attempted, updated)) => Ok(json_record(entry, attempted.as_str(), updated.as_str())),
        Err(message) => Err(message),
    }
}

/// The record of a visit, or why one of its times cannot be written.
pub open spec fn exported_record(format: ExportFormat, entry: HistoryEntryView) -> Result<Seq<char>, Seq<char>> {
    match format {
        ExportFormat::Json => exported_object(entry),
        ExportFormat::Csv => exported_line(entry),
    }
}

/// A file that is being exported.
#[derive(Debug)]
pub struct Exporter {
    pub format: ExportFormat,
    pub count: usize,
}

/// What stands before the first record.
pub open spec fn file_start(format: ExportFormat) -> Seq<char> {
    match format {
        ExportFormat::Json => "["@,
        ExportFormat::Csv => CSV_HEADER@,
    }
}

/// What stands between two records.
pub open spec fn separator(format: ExportFormat) -> Seq<char> {
    match format {
        ExportFormat::Json => ",\n"@,
        ExportFormat::Csv => Seq::empty(),
    }
}

/// What stands after the last record.
pub open spec fn file_end(format: ExportFormat, count: nat) -> Seq<char> {
    match format {
        ExportFormat::Json => if count == 0 {
            "]\n"@
        } else {
            "\n"@ + "]\n"@
        },
        ExportFormat::Csv => Seq::empty(),
    }
}

/// Records with separators between them.
pub open spec fn separated(format: ExportFormat, records: Seq<Seq<char>>) -> Seq<char>
    decreases records.len(),
{
    if records.len() == 0 {
        Seq::empty()
    } else if records.len() == 1 {
        records[0]
    } else {
        separated(format, records.drop_last()) + separator(format) + records.last()
    }
}

/// The exported file that holds the given records.
pub open spec fn file_text(format: ExportFormat, records: Seq<Seq<char>>) -> Seq<char> {
    file_start(format) + separated(format, records) + file_end(format, records.len())
}

/// What is written for a record that `count` others precede.
pub open spec fn record_piece(format: ExportFormat, count: nat, record: Seq<char>) -> Seq<char> {
    if count == 0 {
        record
    } else {
        separator(format) + record
    }
}

impl Exporter {
    /// A file of the format without records.
    pub fn new(format: ExportFormat) -> (r: Exporter)
        ensures
            r.format == format,
            r.count == 0,
    {
        Exporter { format, count: 0 }
    }

    /// What is written before the first record.
    pub fn start(&self) -> (r: String)
        ensures
            r@ == file_start(self.format),
    {
        match self.format {
            ExportFormat::Json => "[".to_owned(),
            ExportFormat::Csv => CSV_HEADER.to_owned(),
        }
    }

    /// What is written for the next record.
    pub fn record(&mut self, record: &str) -> (r: String)
        requires
            old(self).count < usize::MAX,
        ensures
            r@ == record_piece(old(self).format, old(self).count as nat, record@),
            *final(self) == (Exporter { count: (old(self).count + 1) as usize, ..*old(self) }),
    {
        let mut piece: String = String::new();
        assert(piece@ =~= Seq::empty());
        match self.format {
            ExportFormat::Json => {
                if self.count > 0 {
                    piece.append(",\n");
                }
            },
            ExportFormat::Csv => {},
        }
        piece.append(record);
        assert(piece@ =~= record_piece(self.format, self.count as nat, record@));
        self.count = self.count + 1;
        piece
    }

    /// What is written for the next visit. The visit is counted only if it can be written.
    pub fn entry(&mut self, entry: &HistoryEntry) -> (r: Result<String, String>)
        requires
            old(self).count < usize::MAX,
        ensures
            match exported_record(old(self).format, entry@) {
                Ok(record) => {
                    &&& r is Ok
                    &&& r->Ok_0@ == record_piece(old(self).format, old(self).count as nat, record)
                    &&& *final(self) == (Exporter { count: (old(self).count + 1) as usize, ..*old(self) })
                },
                Err(message) => {
                    &&& r is Err
                    &&& r->Err_0@ == message
                    &&& *final(self) == *old(self)
                },
            },
            r is Ok <==> entry@.attempted_at <= LAST_TIMESTAMP && entry@.updated_at <= LAST_TIMESTAMP,
    {
        let exported: Result<String, String> = match self.format {
            ExportFormat::Json => export_json(entry),
            ExportFormat::Csv => export_csv(entry),
        };
        match exported {
            Ok(record) => Ok(self.record(record.as_str())),
            Err(message) => Err(message),
        }
    }

    /// What is written after the last record.
    pub fn end(&self) -> (r: String)
        ensures
            r@ == file_end(self.format, self.count as nat),
    {
        match self.format {
            ExportFormat::Json => {
                if self.count == 0 {
                    "]\n".to_owned()
                } else {
                    let mut text: String = "\n".to_owned();
                    text.append("]\n");
                    text
                }
            },
            ExportFormat::Csv => {
                let text: String = String::new();
                assert(text@ =~= Seq::empty());
                text
            },
        }
    }
}

/// The pieces that are written for records, one after the other.
pub open spec fn pieces(format: ExportFormat, records: Seq<Seq<char>>) -> Seq<char>
    decreases records.len(),
{
    if records.len() == 0 {
        Seq::empty()
    } else {
        pieces(format, records.drop_last()) + record_piece(
            format,
            (records.len() - 1) as nat,
            records.last(),
        )
    }
}

/// Written record by record, the file is the one that holds them all.
pub proof fn pieces_make_the_file(format: ExportFormat, records: Seq<Seq<char>>)
    ensures
        file_start(format) + pieces(format, records) + file_end(format, records.len()) == file_text(format, records),
    decreases records.len(),
{
    lemma_pieces(format, records);
}

proof fn lemma_pieces(format: ExportFormat, records: Seq<Seq<char>>)
    ensures
        pieces(format, records) == separated(format, records),
    decreases records.len(),
{
    if records.len() == 1 {
        assert(pieces(format, records.drop_last()) =~= Seq::empty());
        assert(pieces(format, records) =~= records[0]);
    } else if records.len() > 1 {
        lemma_pieces(format, records.drop_last());
        assert(pieces(format, records) =~= separated(format, records));
    }
}

/// Whether a text is a random UUID without hyphens, in lower case.
pub open spec fn is_simple_uuid(s: Seq<char>) -> bool {
    &&& s.len() == 32
    &&& forall|i: int| 0 <= i < 32 ==> lower_hex_digit(#[trigger] s[i])
    &&& s[12] == '4'
    &&& s[16] == '8' || s[16] == '9' || s[16] == 'a' || s[16] == 'b'
}

/// Calls `uuid::Uuid::new_v4` and writes the UUID with `as_simple`: 32 hexadecimal digits in
/// lower case, version 4. Which UUID it is depends on chance.
#[verifier::external_body]
fn random_simple_text() -> (r: String)
    ensures
        is_simple_uuid(r@),
{
    uuid::Uuid::new_v4().as_simple().to_string()
}

/// The name of the file that an export is written to before it takes the place of the chosen one.
pub open spec fn temp_name(file_name: Option<Seq<char>>, unique: Seq<char>) -> Seq<char> {
    "."@ + (match file_name {
        Some(name) => name,
        None => "folio-export"@,
    }) + "."@ + unique + ".tmp"@
}

/// The name of the file that an export is written to first, made unique by the given text.
pub fn temp_export_name(file_name: Option<String>, unique: &str) -> (r: String)
    ensures
        r@ == temp_name(opt_text(file_name), unique@),
{
    let mut name: String = ".".to_owned();
    match file_name {
        Some(text) => name.append(text.as_str()),
        None => name.append("folio-export"),
    }
    name.append(".");
    name.append(unique);
    name.append(".tmp");
    name
}

/// A new name for the file that an export is written to first.
pub fn temp_export_file(file_name: Option<String>) -> (r: String)
    ensures
        exists|unique: Seq<char>|
            #[trigger] is_simple_uuid(unique) && r@ == temp_name(opt_text(file_name), unique),
{
    let unique: String = random_simple_text();
    let name: String = temp_export_name(file_name, unique.as_str());
    assert(is_simple_uuid(unique@));
    name
}

/// The file that is written first is never the chosen one.
pub proof fn temporary_file_is_another(file_name: Seq<char>, unique: Seq<char>)
    ensures
        temp_name(Some(file_name), unique) != file_name,
{
    reveal_strlit(".");
    assert(temp_name(Some(file_name), unique).len() > file_name.len());
}

/// How far an export has come.
#[derive(Debug)]
pub enum ExportStage {
    /// The directory of the chosen file is made.
    Directory,
    /// The temporary file is created.
    Create,
    /// What stands before the first record is written.
    Start,
    /// The next visit is read.
    Visits,
    /// A record is written.
    Record(String),
    /// What stands after the last record is written.
    End,
    /// What was written is brought to the disk.
    Flush,
    /// The temporary file takes the place of the chosen one.
    Replace,
    /// The export has failed with this error, and the temporary file is removed.
    Remove(String),
}

/// How far an export has come, with its texts as sequences of characters.
#[verifier::ext_equal]
pub enum ExportStageView {
    Directory,
    Create,
    Start,
    Visits,
    Record(Seq<char>),
    End,
    Flush,
    Replace,
    Remove(Seq<char>),
}

impl View for ExportStage {
    type V = ExportStageView;

    open spec fn view(&self) -> ExportStageView {
        match self {
            ExportStage::Directory => ExportStageView::Directory,
            ExportStage::Create => ExportStageView::Create,
            ExportStage::Start => ExportStageView::Start,
            ExportStage::Visits => ExportStageView::Visits,
            ExportStage::Record(text) => ExportStageView::Record(text@),
            ExportStage::End => ExportStageView::End,
            ExportStage::Flush => ExportStageView::Flush,
            ExportStage::Replace => ExportStageView::Replace,
            ExportStage::Remove(error) => ExportStageView::Remove(error@),
        }
    }
}

/// An export that is under way.
#[derive(Debug)]
pub struct ExportTask {
    pub exporter: Exporter,
    /// The name of the file that is written first, next to the chosen one.
    pub temporary: String,
    pub stage: ExportStage,
}

/// An export with its texts as sequences of characters.
#[verifier::ext_equal]
pub struct ExportTaskView {
    pub exporter: Exporter,
    pub temporary: Seq<char>,
    pub stage: ExportStageView,
}

impl View for ExportTask {
    type V = ExportTaskView;

    open spec fn view(&self) -> ExportTaskView {
        ExportTaskView { exporter: self.exporter, temporary: self.temporary@, stage: self.stage@ }
    }
}

/// A step of an export.
#[derive(Debug)]
pub enum ExportAction {
    /// Make the directory of the chosen file, unless it is there.
    MakeDirectory,
    /// Create the temporary file of this name.
    Create(String),
    /// Write the text at the end of the temporary file.
    Write(String),
    /// Read the next visit, the newest first.
    ReadVisit,
    /// Bring what was written to the disk.
    Flush,
    /// Rename the temporary file of this name to the chosen one, which it replaces.
    Rename(String),
    /// Remove the temporary file of this name.
    RemoveTemporary(String),
}

/// A step of an export with its texts as sequences of characters.
#[verifier::ext_equal]
pub enum ExportActionView {
    MakeDirectory,
    Create(Seq<char>),
    Write(Seq<char>),
    ReadVisit,
    Flush,
    Rename(Seq<char>),
    RemoveTemporary(Seq<char>),
}

impl View for ExportAction {
    type V = ExportActionView;

    open spec fn view(&self) -> ExportActionView {
        match self {
            ExportAction::MakeDirectory => ExportActionView::MakeDirectory,
            ExportAction::Create(name) => ExportActionView::Create(name@),
            ExportAction::Write(text) => ExportActionView::Write(text@),
            ExportAction::ReadVisit => ExportActionView::ReadVisit,
            ExportAction::Flush => ExportActionView::Flush,
            ExportAction::Rename(name) => ExportActionView::Rename(name@),
            ExportAction::RemoveTemporary(name) => ExportActionView::RemoveTemporary(name@),
        }
    }
}

/// What follows a step of an export. A finished one tells how many visits it holds.
#[derive(Debug)]
pub enum ExportProgress {
    Continue(ExportTask),
    Finished(Result<usize, String>),
}

/// What follows a step, with its texts as sequences of characters.
#[verifier::ext_equal]
pub enum ExportProgressView {
    Continue(ExportTaskView),
    Finished(Result<usize, Seq<char>>),
}

impl View for ExportProgress {
    type V = ExportProgressView;

    open spec fn view(&self) -> ExportProgressView {
        match self {
            ExportProgress::Continue(task) => ExportProgressView::Continue(task@),
            ExportProgress::Finished(Ok(count)) => ExportProgressView::Finished(Ok(*count)),
            ExportProgress::Finished(Err(message)) => ExportProgressView::Finished(Err(message@)),
        }
    }
}

impl ExportTaskView {
    /// The export at another stage.
    pub open spec fn at(self, stage: ExportStageView) -> ExportProgressView {
        ExportProgressView::Continue(ExportTaskView { stage, ..self })
    }

    /// The step to take now.
    pub open spec fn action(self) -> ExportActionView {
        match self.stage {
            ExportStageView::Directory => ExportActionView::MakeDirectory,
            ExportStageView::Create => ExportActionView::Create(self.temporary),
            ExportStageView::Start => ExportActionView::Write(file_start(self.exporter.format)),
            ExportStageView::Visits => ExportActionView::ReadVisit,
            ExportStageView::Record(text) => ExportActionView::Write(text),
            ExportStageView::End => ExportActionView::Write(
                file_end(self.exporter.format, self.exporter.count as nat),
            ),
            ExportStageView::Flush => ExportActionView::Flush,
            ExportStageView::Replace => ExportActionView::Rename(self.temporary),
            ExportStageView::Remove(_) => ExportActionView::RemoveTemporary(self.temporary),
        }
    }

    /// What follows the step. That no visit could be read because there is none left is a success.
    pub open spec fn after(self, outcome: Result<(), Seq<char>>) -> ExportProgressView {
        match (self.stage, outcome) {
            (ExportStageView::Directory, Err(error)) => ExportProgressView::Finished(Err(error)),
            (ExportStageView::Remove(error), _) => ExportProgressView::Finished(Err(error)),
            (ExportStageView::Create, Err(error)) => self.at(
                ExportStageView::Remove("Could not create export: "@ + error),
            ),
            (_, Err(error)) => self.at(ExportStageView::Remove(error)),
            (ExportStageView::Directory, Ok(())) => self.at(ExportStageView::Create),
            (ExportStageView::Create, Ok(())) => self.at(ExportStageView::Start),
            (ExportStageView::Start, Ok(())) => self.at(ExportStageView::Visits),
            (ExportStageView::Visits, Ok(())) => self.at(ExportStageView::End),
            (ExportStageView::Record(_), Ok(())) => self.at(ExportStageView::Visits),
            (ExportStageView::End, Ok(())) => self.at(ExportStageView::Flush),
            (ExportStageView::Flush, Ok(())) => self.at(ExportStageView::Replace),
            (ExportStageView::Replace, Ok(())) => ExportProgressView::Finished(Ok(self.exporter.count)),
        }
    }

    /// What follows once a visit has been read.
    pub open spec fn visited(self, entry: HistoryEntryView) -> ExportProgressView {
        match exported_record(self.exporter.format, entry) {
            Ok(record) => ExportProgressView::Continue(
                ExportTaskView {
                    exporter: Exporter { count: (self.exporter.count + 1) as usize, ..self.exporter },
                    stage: ExportStageView::Record(
                        record_piece(self.exporter.format, self.exporter.count as nat, record),
                    ),
                    ..self
                },
            ),
            Err(message) => self.at(ExportStageView::Remove(message)),
        }
    }
}

/// An export at its first step.
pub open spec fn fresh_export(format: ExportFormat, temporary: Seq<char>, in_directory: bool) -> ExportTaskView {
    ExportTaskView {
        exporter: Exporter { format, count: 0 },
        temporary,
        stage: if in_directory {
            ExportStageView::Directory
        } else {
            ExportStageView::Create
        },
    }
}

/// Starts to export the ledger in the format of the given name. `file_name` is the name of the
/// chosen file, if it has one that can be read, and `in_directory` tells whether its path has a
/// directory.
pub fn export_history(format: &str, file_name: Option<String>, in_directory: bool) -> (r: Result<ExportTask, String>)
    ensures
        match r {
            Ok(task) => exists|unique: Seq<char>|
                #[trigger] is_simple_uuid(unique) && task@ == fresh_export(
                    task.exporter.format,
                    temp_name(opt_text(file_name), unique),
                    in_directory,
                ) && format@ == match task.exporter.format {
                    ExportFormat::Json => "json"@,
                    ExportFormat::Csv => "csv"@,
                },
            Err(message) => {
                &&& format@ != "json"@ && format@ != "csv"@
                &&& message@ == "Export format must be json or csv."@
            },
        },
        r is Ok <==> format@ == "json"@ || format@ == "csv"@,
{
    match ExportFormat::parse(format) {
        Ok(parsed) => {
            let stage: ExportStage = if in_directory {
                ExportStage::Directory
            } else {
                ExportStage::Create
            };
            Ok(ExportTask { exporter: Exporter::new(parsed), temporary: temp_export_file(file_name), stage })
        },
        Err(message) => Err(message),
    }
}

impl ExportTask {
    /// The step to take now.
    pub fn action(&self) -> (r: ExportAction)
        ensures
            r@ == self@.action(),
    {
        match &self.stage {
            ExportStage::Directory => ExportAction::MakeDirectory,
            ExportStage::Create => ExportAction::Create(self.temporary.clone()),
            ExportStage::Start => ExportAction::Write(self.exporter.start()),
            ExportStage::Visits => ExportAction::ReadVisit,
            ExportStage::Record(text) => ExportAction::Write(text.clone()),
            ExportStage::End => ExportAction::Write(self.exporter.end()),
            ExportStage::Flush => ExportAction::Flush,
            ExportStage::Replace => ExportAction::Rename(self.temporary.clone()),
            ExportStage::Remove(_) => ExportAction::RemoveTemporary(self.temporary.clone()),
        }
    }

    /// What follows the step. Where visits are read, a success means that there are no more.
    pub fn report(self, outcome: Result<(), String>) -> (r: ExportProgress)
        ensures
            r@ == self@.after(outcome_view(outcome)),
    {
        let ExportTask { exporter, temporary, stage } = self;
        let next: ExportStage = match (stage, outcome) {
            (ExportStage::Directory, Err(error)) => {
                return ExportProgress::Finished(Err(error));
            },
            (ExportStage::Remove(error), _) => {
                return ExportProgress::Finished(Err(error));
            },
            (ExportStage::Create, Err(error)) => {
                let mut message: String = "Could not create export: ".to_owned();
                message.append(error.as_str());
                ExportStage::Remove(message)
            },
            (_, Err(error)) => ExportStage::Remove(error),
            (ExportStage::Directory, Ok(())) => ExportStage::Create,
            (ExportStage::Create, Ok(())) => ExportStage::Start,
            (ExportStage::Start, Ok(())) => ExportStage::Visits,
            (ExportStage::Visits, Ok(())) => ExportStage::End,
            (ExportStage::Record(_), Ok(())) => ExportStage::Visits,
            (ExportStage::End, Ok(())) => ExportStage::Flush,
            (ExportStage::Flush, Ok(())) => ExportStage::Replace,
            (ExportStage::Replace, Ok(())) => {
                return ExportProgress::Finished(Ok(exporter.count));
            },
        };
        ExportProgress::Continue(ExportTask { exporter, temporary, stage: next })
    }

    /// What follows once a visit has been read.
    pub fn visit(self, entry: &HistoryEntry) -> (r: ExportProgress)
        requires
            self@.stage is Visits,
            self.exporter.count < usize::MAX,
        ensures
            r@ == self@.visited(entry@),
    {
        let ExportTask { exporter, temporary, .. } = self;
        let mut exporter: Exporter = exporter;
        let stage: ExportStage = match exporter.entry(entry) {
            Ok(piece) => ExportStage::Record(piece),
            Err(message) => ExportStage::Remove(message),
        };
        ExportProgress::Continue(ExportTask { exporter, temporary, stage })
    }
}

} // verus!
