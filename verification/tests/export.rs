use folio_browser::export::{
    csv_record, entry_times, export_csv, export_history, export_json, json_record, temp_export_file, temp_export_name,
    ExportAction, ExportFormat, ExportProgress, Exporter,
};
use folio_browser::history::{HistoryEntry, HistoryStore, NavigationStatus};

fn entry() -> HistoryEntry {
    let mut entry = HistoryStore::open().record_attempt("https://example.com/?a=\"1,2\"", 0).unwrap();
    entry.id = 12;
    entry.updated_at = 1500;
    entry.status = NavigationStatus::Completed;
    entry.title = Some("Say \"hi\"\nthere".to_owned());
    entry
}

#[test]
fn writes_a_visit_as_one_quoted_record() {
    assert_eq!(
        export_csv(&entry()).unwrap(),
        "\"12\",\"0\",\"1970-01-01T00:00:00Z\",\"1500\",\"1970-01-01T00:00:01.5Z\",\"https://example.com/?a=\"\"1,2\"\"\",\"Say \"\"hi\"\"\nthere\",\"completed\",\"page\",\"\",\"\",\"\"\n"
    );
    assert!(csv_record(&entry(), "x", "y").starts_with("\"12\",\"0\",\"x\",\"1500\",\"y\","));
}

#[test]
fn writes_a_visit_as_one_object() {
    let expected = r#"{
  "id": 12,
  "attemptedAt": 0,
  "updatedAt": 1500,
  "url": "https://example.com/?a=\"1,2\"",
  "title": "Say \"hi\"\nthere",
  "status": "completed",
  "source": "page",
  "submittedInput": null,
  "searchQuery": null,
  "searchUrl": null,
  "attemptedAtIso": "1970-01-01T00:00:00Z",
  "updatedAtIso": "1970-01-01T00:00:01.5Z"
}"#;
    assert_eq!(export_json(&entry()).unwrap(), expected);
}

#[test]
fn escapes_what_a_string_cannot_hold() {
    let mut odd = entry();
    odd.title = Some("\\ / \u{8}\t\u{c}\r\u{1}\u{1f}\u{7f} \u{e9}\u{1f600}".to_owned());
    let text = json_record(&odd, "x", "y");
    assert!(text.contains("\"title\": \"\\\\ / \\b\\t\\f\\r\\u0001\\u001f\u{7f} \u{e9}\u{1f600}\",\n"));
    let read: serde_json::Value = serde_json::from_str(&text).unwrap();
    assert_eq!(read["title"].as_str(), odd.title.as_deref());
    assert_eq!(read.as_object().unwrap().len(), 12);
}

#[test]
fn an_exported_file_holds_every_visit() {
    let visits: Vec<HistoryEntry> = (1..4).map(|id| HistoryEntry { id, ..entry() }).collect();
    let mut exporter = Exporter::new(ExportFormat::Json);
    let mut text = exporter.start();
    for visit in &visits {
        text.push_str(&exporter.entry(visit).unwrap());
    }
    text.push_str(&exporter.end());
    assert_eq!(exporter.count, 3);
    let read: serde_json::Value = serde_json::from_str(&text).unwrap();
    let ids: Vec<u64> = read.as_array().unwrap().iter().map(|object| object["id"].as_u64().unwrap()).collect();
    assert_eq!(ids, [1, 2, 3]);
    assert_eq!(read[2]["url"].as_str(), Some("https://example.com/?a=\"1,2\""));
    assert_eq!(read[2]["updatedAtIso"].as_str(), Some("1970-01-01T00:00:01.5Z"));

    let mut table = Exporter::new(ExportFormat::Csv);
    let first = table.entry(&visits[0]).unwrap();
    assert_eq!(first, export_csv(&visits[0]).unwrap());
    assert_eq!(table.entry(&visits[1]).unwrap(), export_csv(&visits[1]).unwrap());
}

#[test]
fn a_visit_that_cannot_be_written_is_not_counted() {
    let mut late = entry();
    late.attempted_at = 253_402_300_800_000;
    let mut exporter = Exporter::new(ExportFormat::Json);
    assert!(exporter.entry(&late).is_err());
    assert_eq!(exporter.count, 0);
    assert!(export_json(&late).is_err());
    assert_eq!(exporter.end(), "]\n");
}

#[test]
fn a_time_that_cannot_be_written_fails_the_export() {
    let mut late = entry();
    late.updated_at = 253_402_300_800_000;
    assert!(export_csv(&late).is_err());
    assert!(entry_times(&late).is_err());
    let (attempted, updated) = entry_times(&entry()).unwrap();
    assert_eq!((attempted.as_str(), updated.as_str()), ("1970-01-01T00:00:00Z", "1970-01-01T00:00:01.5Z"));
}

#[test]
fn knows_two_formats() {
    assert_eq!(ExportFormat::parse("json").unwrap(), ExportFormat::Json);
    assert_eq!(ExportFormat::parse("csv").unwrap(), ExportFormat::Csv);
    assert_eq!(ExportFormat::parse("CSV").unwrap_err(), "Export format must be json or csv.");
}

fn file(format: ExportFormat, records: &[&str]) -> String {
    let mut exporter = Exporter::new(format);
    let mut text = exporter.start();
    for record in records {
        text.push_str(&exporter.record(record));
    }
    assert_eq!(exporter.count, records.len());
    text.push_str(&exporter.end());
    text
}

#[test]
fn frames_json_records() {
    assert_eq!(file(ExportFormat::Json, &[]), "[]\n");
    assert_eq!(file(ExportFormat::Json, &["{}"]), "[{}\n]\n");
    assert_eq!(file(ExportFormat::Json, &["{\"a\": 1}", "{}"]), "[{\"a\": 1},\n{}\n]\n");
}

#[test]
fn frames_csv_records() {
    let header = "id,attempted_at,attempted_at_iso,updated_at,updated_at_iso,url,title,status,source,submitted_input,search_query,search_url\n";
    assert_eq!(file(ExportFormat::Csv, &[]), header);
    assert_eq!(file(ExportFormat::Csv, &["\"1\"\n", "\"2\"\n"]), format!("{header}\"1\"\n\"2\"\n"));
}

#[test]
fn names_a_temporary_file() {
    assert_eq!(temp_export_name(Some("out.csv".to_owned()), "ab"), ".out.csv.ab.tmp");
    assert_eq!(temp_export_name(None, "ab"), ".folio-export.ab.tmp");
    let drawn = temp_export_file(Some("out.csv".to_owned()));
    assert!(drawn.starts_with(".out.csv.") && drawn.ends_with(".tmp"));
    let unique = &drawn[9..drawn.len() - 4];
    assert_eq!(unique.len(), 32);
    assert!(unique.chars().all(|c| c.is_ascii_digit() || ('a'..='f').contains(&c)));
    assert_eq!(&unique[12..13], "4");
    assert_ne!(temp_export_file(Some("out.csv".to_owned())), drawn);
}

/// A directory that holds the chosen file and the temporary one.
struct Disk {
    chosen: Option<String>,
    temporary: Option<String>,
}

/// Exports the visits, with the step at the given place failing, and tells the steps that were
/// taken.
fn exported(disk: &mut Disk, visits: &[HistoryEntry], fails_at: usize) -> (Result<usize, String>, Vec<String>) {
    let task = export_history("json", Some("out.json".to_owned()), true).unwrap();
    let name = task.temporary.clone();
    let mut unread = visits.iter();
    let mut steps = Vec::new();
    let mut progress = ExportProgress::Continue(task);
    loop {
        let task = match progress {
            ExportProgress::Finished(outcome) => return (outcome, steps),
            ExportProgress::Continue(task) => task,
        };
        let fails = steps.len() == fails_at;
        let action = task.action();
        steps.push(format!("{action:?}").split('(').next().unwrap().to_owned());
        if fails {
            progress = task.report(Err("no room".to_owned()));
            continue;
        }
        match action {
            ExportAction::MakeDirectory | ExportAction::Flush => {}
            ExportAction::Create(created) => {
                assert_eq!(created, name);
                disk.temporary = Some(String::new());
            }
            ExportAction::Write(text) => disk.temporary.as_mut().unwrap().push_str(&text),
            ExportAction::ReadVisit => {
                if let Some(visit) = unread.next() {
                    progress = task.visit(visit);
                    continue;
                }
            }
            ExportAction::Rename(renamed) => {
                assert_eq!(renamed, name);
                disk.chosen = disk.temporary.take();
            }
            ExportAction::RemoveTemporary(removed) => {
                assert_eq!(removed, name);
                disk.temporary = None;
            }
        }
        progress = task.report(Ok(()));
    }
}

#[test]
fn an_export_replaces_the_file_once_it_is_complete() {
    let visits: Vec<HistoryEntry> = (1..3).map(|id| HistoryEntry { id, ..entry() }).collect();
    let mut disk = Disk { chosen: Some("old".to_owned()), temporary: None };
    let (outcome, steps) = exported(&mut disk, &visits, usize::MAX);
    assert_eq!(outcome, Ok(2));
    let expected = [
        "MakeDirectory", "Create", "Write", "ReadVisit", "Write", "ReadVisit", "Write", "ReadVisit", "Write", "Flush",
        "Rename",
    ];
    assert_eq!(steps, expected);
    let records: Vec<String> = visits.iter().map(|visit| export_json(visit).unwrap()).collect();
    assert_eq!(disk.chosen, Some(format!("[{},\n{}\n]\n", records[0], records[1])));
    assert_eq!(disk.temporary, None);
}

#[test]
fn a_failed_export_leaves_the_file_and_removes_the_temporary_one() {
    let visits = [entry()];
    for fails_at in 0..9 {
        let mut disk = Disk { chosen: Some("old".to_owned()), temporary: None };
        let (outcome, steps) = exported(&mut disk, &visits, fails_at);
        let error = if fails_at == 1 { "Could not create export: no room" } else { "no room" };
        assert_eq!(outcome, Err(error.to_owned()));
        assert_eq!(disk.chosen.as_deref(), Some("old"));
        assert_eq!(disk.temporary, None);
        let last = if fails_at == 0 { "MakeDirectory" } else { "RemoveTemporary" };
        assert_eq!(steps.last().unwrap(), last);
        assert_eq!(steps.len(), if fails_at == 0 { 1 } else { fails_at + 2 });
    }
    let mut late = entry();
    late.updated_at = 253_402_300_800_000;
    let mut disk = Disk { chosen: None, temporary: None };
    let (outcome, steps) = exported(&mut disk, &[entry(), late], usize::MAX);
    assert!(outcome.is_err() && disk.chosen.is_none() && disk.temporary.is_none());
    assert_eq!(steps.last().unwrap(), "RemoveTemporary");
}

#[test]
fn an_export_in_no_known_format_does_not_start() {
    assert_eq!(export_history("xml", None, false).unwrap_err(), "Export format must be json or csv.");
    let task = export_history("csv", None, false).unwrap();
    assert!(task.temporary.starts_with(".folio-export."));
    assert!(matches!(task.action(), ExportAction::Create(_)));
}
