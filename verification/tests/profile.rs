use folio_browser::paths::{append_suffix, DataPath};
use folio_browser::profile::{record_with_id, ProfileId, ProfileRecord, ProfileSummary};
use folio_browser::registry::{ProfileRegistry, RegistryFile, StoredProfile};
use folio_browser::tasks::{
    lock_failure, lock_note, startup_failure, CreateEnd, DeleteAction, DeleteProgress, LockKind,
};

const A: &str = "8f2ceb3a-1c44-44a1-9b3e-5f6b4f6d3c21";
const B: &str = "0A2ceb3a-1c44-44a1-9b3e-5f6b4f6d3c22";

fn registry() -> ProfileRegistry {
    ProfileRegistry::new(DataPath::root("/app"), DataPath::root("/local"))
}

fn id(text: &str) -> ProfileId {
    ProfileId::parse(text).unwrap()
}

fn refused(text: &str) -> String {
    ProfileId::parse(text).unwrap_err()
}

fn names(path: &DataPath) -> Vec<&str> {
    path.names.iter().map(|name| name.as_str()).collect()
}

/// What the registry's file holds once the profiles have been saved.
fn saved(profiles: &Vec<ProfileRecord>) -> Option<RegistryFile> {
    Some(registry().registry_file(profiles))
}

/// Creates a profile in a registry that is saved without trouble.
fn created(name: &str, profiles: Vec<ProfileRecord>) -> (ProfileRecord, Vec<ProfileRecord>) {
    let task = registry().create(name, 7, profiles);
    let after = registry().load(saved(&task.profiles)).unwrap();
    match task.saved(Ok(())) {
        CreateEnd::Created(record) => (record, after),
        CreateEnd::Undo(_, message) => panic!("{message}"),
    }
}

#[test]
fn parses_only_well_formed_uuids() {
    assert!(ProfileId::parse("8f2ceb3a-1c44-44a1-9b3e-5f6b4f6d3c21").is_ok());
    assert!(ProfileId::parse("").is_err());
    assert!(ProfileId::parse("../evil").is_err());
    assert!(ProfileId::parse("8f2ceb3a1c4444a19b3e5f6b4f6d3c21").is_err());
    assert!(ProfileId::parse("8f2ceb3a-1c44-44a1-9b3e-5f6b4f6d3c2!").is_err());
    assert!(ProfileId::parse("not-a-uuid-at-all----").is_err());
    assert!(ProfileId::parse("8f2ceb3a/1c44/44a1/9b3e/5f6b4f6d3c21").is_err());
}

#[test]
fn says_why_an_identifier_is_refused() {
    assert_eq!(refused("x"), "Profile id must be a UUID.");
    // Eighteen characters of two bytes each.
    assert_eq!(refused("éééééééééééééééééé"), "Profile id contains invalid characters.");
    assert_eq!(refused("8f2ceb3a/1c44/44a1/9b3e/5f6b4f6d3c21"), "Profile id contains invalid characters.");
    assert_eq!(refused("8f2ceb3a01c44-44a1-9b3e-5f6b4f6d3c21"), "Profile id is not a well-formed UUID.");
    assert_eq!(refused("------------------------------------"), "Profile id is not a well-formed UUID.");
}

#[test]
fn keeps_the_case_of_an_identifier() {
    assert_eq!(id(B).as_str(), B);
}

#[test]
fn draws_identifiers_that_parse() {
    let drawn = ProfileId::new();
    assert_eq!(drawn.as_str().len(), 36);
    assert_eq!(&drawn.as_str()[14..15], "4");
    assert_eq!(id(drawn.as_str()), drawn);
    assert_ne!(ProfileId::default(), drawn);
}

#[test]
fn distinct_profiles_resolve_to_distinct_paths() {
    let registry = registry();
    let a = ProfileId::new();
    let b = ProfileId::new();
    assert_ne!(a, b);
    assert_ne!(registry.history_path(&a), registry.history_path(&b));
    assert_ne!(registry.downloads_path(&a), registry.downloads_path(&b));
    assert_ne!(registry.webview_dir(&a), registry.webview_dir(&b));
    let history = registry.history_path(&a);
    assert_eq!(history, registry.profile_dir(&a).join("history.sqlite3"));
}

#[test]
fn lays_out_the_data_of_a_profile() {
    let registry = registry();
    let a = id(A);
    let token = id(B);
    assert_eq!(registry.registry_path().base, "/app");
    assert_eq!(names(&registry.registry_path()), ["profiles.json"]);
    assert_eq!(names(&registry.registry_temporary_path()), ["profiles.json.tmp"]);
    assert_eq!(names(&registry.registry_lock_path()), ["profiles.json.lock"]);
    assert_eq!(names(&registry.profile_dir(&a)), ["profiles", A]);
    assert_eq!(names(&registry.downloads_path(&a)), ["profiles", A, "downloads.sqlite3"]);
    assert_eq!(names(&registry.lock_path(&a)), ["profiles", A, "profile.lock"]);
    assert_eq!(names(&registry.launch_lock_path(&a)), ["profiles", A, "launch.lock"]);
    assert_eq!(
        names(&registry.launch_ready_path(&a, &token)),
        ["profiles", A, "launch-0A2ceb3a-1c44-44a1-9b3e-5f6b4f6d3c22.ready"]
    );
    assert_eq!(registry.webview_dir(&a).base, "/local");
    assert_eq!(names(&registry.webview_dir(&a)), ["profiles", A, "webview"]);
    assert_eq!(names(&registry.launcher_dir()), ["launcher"]);
}

#[test]
fn puts_a_suffix_behind_a_path() {
    let path = DataPath::root("/app").join("history.sqlite3");
    assert_eq!(append_suffix(&path, "-wal"), DataPath::root("/app").join("history.sqlite3-wal"));
    assert_eq!(append_suffix(&DataPath::root("/app"), "-wal"), DataPath::root("/app-wal"));
}

#[test]
fn registry_create_rename_delete_roundtrip() {
    let registry = registry();
    let (first, profiles) = created("Work", Vec::new());
    let (second, profiles) = created("Personal", profiles);
    assert!(first.last_used_at.is_none());
    assert!(registry.find(&first.id, saved(&profiles)).unwrap().is_some());
    assert_eq!(registry.load(saved(&profiles)).unwrap().len(), 2);

    let mut profiles = profiles;
    registry.rename(&first.id, "Office", &mut profiles).unwrap();
    assert_eq!(registry.find(&first.id, saved(&profiles)).unwrap().unwrap().name, "Office");

    let task = registry.delete(&second.id, false, false, Ok(profiles)).unwrap();
    let DeleteProgress::Continue(task) = task.report(Ok(())) else { panic!() };
    let DeleteProgress::Continue(task) = task.report(Ok(())) else { panic!() };
    let DeleteAction::Save(profiles) = task.action() else { panic!() };
    assert!(matches!(task.report(Ok(())), DeleteProgress::Finished(Ok(()))));
    assert_eq!(registry.load(saved(&profiles)).unwrap().len(), 1);
    assert!(registry.find(&second.id, saved(&profiles)).unwrap().is_none());
}

#[test]
fn delete_keeps_the_registry_record_when_cleanup_fails() {
    let registry = registry();
    let (profile, profiles) = created("Work", Vec::new());
    let mut file = saved(&profiles);
    let mut progress = DeleteProgress::Continue(registry.delete(&profile.id, false, false, Ok(profiles)).unwrap());
    let outcome = loop {
        progress = match progress {
            DeleteProgress::Continue(task) => match task.action() {
                DeleteAction::Remove(directory) => {
                    assert_eq!(directory, registry.profile_dir(&profile.id));
                    task.report(Err("not a directory".to_owned()))
                }
                DeleteAction::Save(remaining) => {
                    file = saved(&remaining);
                    task.report(Ok(()))
                }
            },
            DeleteProgress::Finished(outcome) => break outcome,
        };
    };
    let error = outcome.unwrap_err();
    assert!(error.contains("remains registered"));
    assert_eq!(
        error,
        "Could not delete this profile's history data. The profile remains registered so you can retry: not a directory"
    );
    assert!(registry.find(&profile.id, file).unwrap().is_some());
}

#[test]
fn web_view_data_that_stays_keeps_the_record_too() {
    let registry = registry();
    let (profile, profiles) = created("Work", Vec::new());
    let task = registry.delete(&profile.id, false, false, Ok(profiles)).unwrap();
    let DeleteProgress::Continue(task) = task.report(Ok(())) else { panic!() };
    let DeleteAction::Remove(directory) = task.action() else { panic!() };
    assert_eq!(directory, registry.webview_dir(&profile.id));
    let DeleteProgress::Finished(Err(error)) = task.report(Err("busy".to_owned())) else { panic!() };
    assert_eq!(
        error,
        "Could not delete this profile's WebView data. The profile remains registered so you can retry: busy"
    );
}

#[test]
fn a_registry_that_cannot_be_saved_fails_the_deletion() {
    let (profile, profiles) = created("Work", Vec::new());
    let task = registry().delete(&profile.id, false, false, Ok(profiles)).unwrap();
    let DeleteProgress::Continue(task) = task.report(Ok(())) else { panic!() };
    let DeleteProgress::Continue(task) = task.report(Ok(())) else { panic!() };
    let DeleteProgress::Finished(Err(error)) = task.report(Err("full".to_owned())) else { panic!() };
    assert_eq!(error, "full");
}

#[test]
fn delete_refuses_a_launch_reservation() {
    let registry = registry();
    let (profile, profiles) = created("Work", Vec::new());
    let reservation = registry.reserve_launch(&profile.id, Ok(profiles.clone()), false, false).unwrap();
    assert_eq!(reservation, registry.launch_lock_path(&profile.id));
    assert_eq!(
        registry.delete(&profile.id, false, true, Ok(profiles.clone())).unwrap_err(),
        "Close this profile's window before deleting it."
    );
    assert!(registry.delete(&profile.id, true, false, Ok(profiles.clone())).is_err());
    registry.delete(&profile.id, false, false, Ok(profiles)).unwrap();
}

#[test]
fn delete_reports_a_missing_profile_and_a_damaged_registry() {
    let registry = registry();
    let (_, profiles) = created("Work", Vec::new());
    assert_eq!(
        registry.delete(&id(A), false, false, Ok(profiles)).unwrap_err(),
        "That profile no longer exists."
    );
    assert_eq!(registry.delete(&id(A), false, false, Err("damaged".to_owned())).unwrap_err(), "damaged");
}

#[test]
fn a_creation_that_cannot_be_saved_is_undone() {
    let registry = registry();
    let task = registry.create("  Work ", 7, Vec::new());
    assert_eq!(task.record.name, "Work");
    assert_eq!(task.record.color, "#8a3d2f");
    assert_eq!(task.record.created_at, 7);
    assert_eq!(task.directory, registry.profile_dir(&task.record.id));
    let directory = task.directory.clone();
    match task.saved(Err("full".to_owned())) {
        CreateEnd::Undo(undone, message) => {
            assert_eq!(undone, directory);
            assert_eq!(message, "full");
        }
        CreateEnd::Created(_) => panic!(),
    }
}

#[test]
fn colors_come_in_turn() {
    let colors: Vec<String> = (0..8).map(|index| record_with_id(id(A), "x", index, 0).color).collect();
    assert_eq!(
        colors,
        ["#8a3d2f", "#3f5d7a", "#3f6f52", "#8a6a2f", "#6a4d8a", "#a0523d", "#8a3d2f", "#3f5d7a"]
    );
}

#[test]
fn launches_are_reserved_for_idle_profiles_only() {
    let registry = registry();
    let (profile, profiles) = created("Work", Vec::new());
    let reserve = |open: bool, starting: bool| {
        registry.reserve_launch(&profile.id, Ok(profiles.clone()), open, starting).unwrap_err()
    };
    assert_eq!(reserve(true, true), "This profile is already open in another window.");
    assert_eq!(reserve(false, true), "This profile is already starting in another window.");
    assert_eq!(
        registry.reserve_launch(&id(A), Ok(Vec::new()), false, false).unwrap_err(),
        "That profile no longer exists."
    );
    assert_eq!(registry.reserve_launch(&id(A), Err("damaged".to_owned()), false, false).unwrap_err(), "damaged");
    let started = registry.acquire_for_launch(&profile.id, Ok(profiles.clone()), false).unwrap();
    assert_eq!(started.id, profile.id);
    assert_eq!(
        registry.acquire_for_launch(&profile.id, Ok(profiles), true).unwrap_err(),
        "This profile is already open in another window."
    );
    let missing = registry.acquire_for_launch(&id(A), Ok(Vec::new()), false).unwrap_err();
    assert_eq!(startup_failure(&missing, &id(A)), format!("Unknown profile id: {A}"));
    assert_eq!(startup_failure("damaged", &id(A)), "damaged");
    assert_eq!(lock_failure("busy", &started), "busy: Work");
}

#[test]
fn locks_name_their_holder_and_their_conflict() {
    assert_eq!(lock_note(4021), "4021\n");
    assert_eq!(
        LockKind::Registry.conflict_message(),
        "Another Folio launcher is editing profiles right now. Try again in a moment."
    );
}

#[test]
fn rename_and_use_change_one_profile() {
    let registry = registry();
    let (first, profiles) = created("Work", Vec::new());
    let (second, mut profiles) = created("Personal", profiles);
    registry.rename(&second.id, " Home\t", &mut profiles).unwrap();
    registry.touch_last_used(&second.id, 99, &mut profiles).unwrap();
    assert_eq!(profiles[0].id, first.id);
    assert_eq!(profiles[0].name, "Work");
    assert_eq!(profiles[0].last_used_at, None);
    assert_eq!(profiles[1].name, "Home");
    assert_eq!(profiles[1].last_used_at, Some(99));
    assert_eq!(
        registry.rename(&id(A), "x", &mut profiles).unwrap_err(),
        "That profile no longer exists."
    );
    assert_eq!(
        registry.touch_last_used(&id(A), 1, &mut profiles).unwrap_err(),
        "That profile no longer exists."
    );
    assert_eq!(profiles.len(), 2);
}

fn stored(id: &str) -> StoredProfile {
    StoredProfile {
        id: id.to_owned(),
        name: "n".to_owned(),
        color: "c".to_owned(),
        created_at: 1,
        last_used_at: None,
    }
}

#[test]
fn loads_only_registries_it_understands() {
    let registry = registry();
    assert_eq!(registry.load(None).unwrap().len(), 0);
    assert_eq!(
        registry.load(Some(RegistryFile { version: 2, profiles: vec![stored("../x")] })).unwrap_err(),
        "Unsupported profile registry version 2."
    );
    assert_eq!(
        registry.load(Some(RegistryFile { version: 1, profiles: vec![stored(A), stored("../x")] })).unwrap_err(),
        "Profile id must be a UUID."
    );
    let loaded = registry.load(Some(RegistryFile { version: 1, profiles: vec![stored(A)] })).unwrap();
    assert_eq!(loaded[0].id.as_str(), A);
}

#[test]
fn summarizes_a_profile() {
    let summary = ProfileSummary::from(&record_with_id(id(A), "Work", 1, 5), true);
    assert_eq!(summary.id, A);
    assert_eq!(summary.name, "Work");
    assert_eq!(summary.color, "#3f5d7a");
    assert_eq!(summary.created_at, 5);
    assert_eq!(summary.last_used_at, None);
    assert!(summary.running);
}
