use folio_browser::cli::{help_text, launch_arguments, parse, AppMode, CliExit};
use folio_browser::migration::{
    copies_legacy_entry, LegacyHistory, MigrationAction, MigrationProgress,
};
use folio_browser::paths::DataPath;
use folio_browser::picker::{
    chosen_profile, create_profile, list_profiles, rename_profile, sort_by_last_use, watch_launch, LaunchStep,
    PickerState,
};
use folio_browser::profile::{record_with_id, ProfileId, ProfileRecord};
use folio_browser::registry::ProfileRegistry;

const A: &str = "8f2ceb3a-1c44-44a1-9b3e-5f6b4f6d3c21";
const B: &str = "0a2ceb3a-1c44-44a1-9b3e-5f6b4f6d3c22";

fn state(migration_error: Option<&str>) -> PickerState {
    PickerState {
        registry: ProfileRegistry::new(DataPath::root("/app"), DataPath::root("/local")),
        migration_error: migration_error.map(str::to_owned),
    }
}

fn used(name: &str, last_used_at: Option<u64>) -> ProfileRecord {
    let mut record = record_with_id(ProfileId::new(), name, 0, 0);
    record.last_used_at = last_used_at;
    record
}

fn arguments(words: &[&str]) -> Vec<String> {
    words.iter().map(|word| (*word).to_owned()).collect()
}

fn fatal(words: &[&str]) -> String {
    match parse(&arguments(words)).unwrap_err() {
        CliExit::Fatal(message) => message,
        CliExit::Help => panic!("help"),
    }
}

#[test]
fn lists_the_last_used_first_and_keeps_ties_in_order() {
    let profiles = vec![
        used("a", None),
        used("b", Some(5)),
        used("c", Some(0)),
        used("d", Some(9)),
        used("e", Some(5)),
    ];
    let sorted = sort_by_last_use(&profiles);
    let running: Vec<bool> = sorted.iter().map(|record| record.name == "b").collect();
    let summaries = list_profiles(&sorted, &running);
    let names: Vec<&str> = summaries.iter().map(|summary| summary.name.as_str()).collect();
    assert_eq!(names, ["d", "b", "e", "a", "c"]);
    assert!(summaries[1].running && !summaries[0].running);
}

#[test]
fn a_failed_migration_stops_every_change() {
    let notice = "Your existing Folio data could not be migrated safely. No profile changes were made. disk full";
    let failed = state(Some("disk full"));
    assert_eq!(failed.registry().err().unwrap(), notice);
    assert_eq!(create_profile(&failed, "Work").unwrap_err(), notice);
    assert_eq!(rename_profile(&failed, A, "Work").unwrap_err(), notice);
    assert_eq!(chosen_profile(&failed, A).unwrap_err(), notice);
    assert!(state(None).registry().is_ok());
}

#[test]
fn profile_names_are_not_blank() {
    let ready = state(None);
    assert_eq!(create_profile(&ready, " \t ").unwrap_err(), "Enter a name for the new profile.");
    assert_eq!(create_profile(&ready, " Work ").unwrap(), "Work");
    assert_eq!(rename_profile(&ready, A, "  ").unwrap_err(), "Enter a name for the profile.");
    assert_eq!(rename_profile(&ready, "x", "  ").unwrap_err(), "Profile id must be a UUID.");
    let (id, name) = rename_profile(&ready, A, " Home ").unwrap();
    assert_eq!((id.as_str(), name.as_str()), (A, "Home"));
    assert_eq!(chosen_profile(&ready, A).unwrap().as_str(), A);
    assert!(chosen_profile(&ready, "x").is_err());
}

#[test]
fn waits_for_the_browser_and_no_longer() {
    assert!(matches!(watch_launch(true, Ok(None), 20_000), LaunchStep::Ready));
    assert!(matches!(watch_launch(false, Ok(None), 11_999), LaunchStep::Wait));
    match watch_launch(false, Ok(None), 12_000) {
        LaunchStep::Stop(message) => assert_eq!(message, "The profile browser did not become ready in time."),
        other => panic!("{other:?}"),
    }
    match watch_launch(false, Ok(Some("exit code: 3".to_owned())), 0) {
        LaunchStep::Failed(message) => {
            assert_eq!(message, "The profile browser exited before it was ready (exit code: 3).")
        }
        other => panic!("{other:?}"),
    }
    match watch_launch(false, Err("lost".to_owned()), 0) {
        LaunchStep::Failed(message) => assert_eq!(message, "lost"),
        other => panic!("{other:?}"),
    }
}

#[test]
fn reads_the_command_line() {
    assert!(matches!(parse(&Vec::new()).unwrap(), AppMode::Picker));
    assert!(matches!(parse(&arguments(&["-h"])).unwrap_err(), CliExit::Help));
    assert!(matches!(parse(&arguments(&["-p", A, "--help", "x"])).unwrap_err(), CliExit::Help));
    match parse(&arguments(&["-p", A, "--profile", B])).unwrap() {
        AppMode::Browser { profile_id, launch_token } => {
            assert_eq!(profile_id.as_str(), B);
            assert!(launch_token.is_none());
        }
        AppMode::Picker => panic!(),
    }
    assert!(help_text().starts_with("Folio Browser\n\nUSAGE:\n    folio-browser [OPTIONS]\n"));
    assert!(help_text().ends_with("Print help"));
}

#[test]
fn refuses_arguments_it_does_not_know() {
    assert_eq!(fatal(&["--profile"]), "--profile requires a profile id.");
    assert_eq!(fatal(&["--launch-token"]), "--launch-token requires a token.");
    assert_eq!(fatal(&["--launch-token", A]), "--launch-token requires --profile.");
    assert_eq!(fatal(&["--wat"]), "Unknown argument: --wat");
    assert_eq!(fatal(&["-p", "a\"b"]), "Invalid --profile id \"a\\\"b\": Profile id must be a UUID.");
    assert_eq!(
        fatal(&["--launch-token", "8f2ceb3a-1c44-44a1-9b3e-5f6b4f6d3c2!"]),
        "Invalid --launch-token \"8f2ceb3a-1c44-44a1-9b3e-5f6b4f6d3c2!\": Profile id contains invalid characters."
    );
}

#[test]
fn a_browser_reads_what_the_picker_passes() {
    let words = launch_arguments(&ProfileId::parse(A).unwrap(), &ProfileId::parse(B).unwrap());
    assert_eq!(words, ["--profile", A, "--launch-token", B]);
    match parse(&words).unwrap() {
        AppMode::Browser { profile_id, launch_token } => {
            assert_eq!(profile_id.as_str(), A);
            assert_eq!(launch_token.unwrap().as_str(), B);
        }
        AppMode::Picker => panic!(),
    }
}

#[test]
fn migrates_legacy_history_and_webview_only_once() {
    let registry = state(None).registry;
    let task = registry.migrate_legacy(false, 3).unwrap();
    assert_eq!(task.profile.name, "Default");
    let id = task.profile.id.clone();

    let found = LegacyHistory { database: true, write_ahead_log: false, shared_memory: true };
    let copies = registry.copy_legacy_history(&id, found);
    assert_eq!(copies.len(), 2);
    assert_eq!(copies[0].source, DataPath::root("/app").join("history.sqlite3"));
    assert_eq!(copies[0].destination, registry.history_path(&id));
    assert_eq!(copies[1].source, DataPath::root("/app").join("history.sqlite3-shm"));
    assert_eq!(copies[1].destination, registry.profile_dir(&id).join("history.sqlite3-shm"));
    let orphaned = LegacyHistory { database: false, write_ahead_log: true, shared_memory: true };
    assert!(registry.copy_legacy_history(&id, orphaned).is_empty());
    assert_eq!(registry.legacy_webview_marker(), DataPath::root("/local").join("EBWebView"));
    assert_eq!(registry.copy_legacy_webview(&id, true, true).unwrap(), registry.webview_dir(&id));
    assert!(registry.copy_legacy_webview(&id, true, false).is_none());
    assert!(copies_legacy_entry(Some("EBWebView")) && copies_legacy_entry(None));
    assert!(!copies_legacy_entry(Some("launcher")) && !copies_legacy_entry(Some("profiles")));

    assert!(matches!(task.action(), MigrationAction::Copy));
    let MigrationProgress::Continue(task) = task.report(Ok(())) else { panic!() };
    match task.action() {
        MigrationAction::MakeDirectory(directory) => assert_eq!(directory, registry.profile_dir(&id)),
        other => panic!("{other:?}"),
    }
    let MigrationProgress::Continue(task) = task.report(Ok(())) else { panic!() };
    match task.action() {
        MigrationAction::Save(profile) => assert_eq!(profile.id, id),
        other => panic!("{other:?}"),
    }
    assert!(matches!(task.report(Ok(())), MigrationProgress::Done));

    // Second migration must be a no-op.
    assert!(registry.migrate_legacy(true, 4).is_none());
}

#[test]
fn a_migration_that_fails_says_where() {
    let registry = state(None).registry;
    let task = registry.migrate_legacy(false, 3).unwrap();
    let id = task.profile.id.clone();
    match task.report(Err("no space".to_owned())) {
        MigrationProgress::Undo(profile_dir, webview_dir, message) => {
            assert_eq!(profile_dir, registry.profile_dir(&id));
            assert_eq!(webview_dir, registry.webview_dir(&id));
            assert_eq!(message, "Could not migrate existing Folio data: no space");
        }
        other => panic!("{other:?}"),
    }
    let task = registry.migrate_legacy(false, 3).unwrap();
    let MigrationProgress::Continue(task) = task.report(Ok(())) else { panic!() };
    match task.report(Err("denied".to_owned())) {
        MigrationProgress::Failed(message) => assert_eq!(message, "denied"),
        other => panic!("{other:?}"),
    }
    let task = registry.migrate_legacy(false, 3).unwrap();
    let MigrationProgress::Continue(task) = task.report(Ok(())) else { panic!() };
    let MigrationProgress::Continue(task) = task.report(Ok(())) else { panic!() };
    match task.report(Err("denied".to_owned())) {
        MigrationProgress::Failed(message) => {
            assert_eq!(message, "Could not finalize the data migration: denied")
        }
        other => panic!("{other:?}"),
    }
}
