//! Taking over the data of an installation that had no profiles.

use crate::paths::{append_suffix, DataPath, DataPathView};
use crate::profile::{is_profile_id, record_of, ProfileId, ProfileRecord, ProfileRecordView};
use crate::registry::{profile_dir_of, webview_dir_of, ProfileRegistry};
use crate::tasks::outcome_view;
use crate::text::same_text;
use vstd::prelude::*;

verus! {

/// A file to copy and the place to copy it to.
#[derive(Debug)]
pub struct CopyStep {
    pub source: DataPath,
    pub destination: DataPath,
}

/// A copy with its texts as sequences of characters.
#[verifier::ext_equal]
pub struct CopyStepView {
    pub source: DataPathView,
    pub destination: DataPathView,
}

impl View for CopyStep {
    type V = CopyStepView;

    open spec fn view(&self) -> CopyStepView {
        CopyStepView { source: self.source@, destination: self.destination@ }
    }
}

/// The views of copies.
pub open spec fn copy_views(steps: Seq<CopyStep>) -> Seq<CopyStepView> {
    Seq::new(steps.len(), |i: int| steps[i]@)
}

/// Which files of the old ledger exist.
#[derive(Clone, Copy, Debug)]
pub struct LegacyHistory {
    pub database: bool,
    pub write_ahead_log: bool,
    pub shared_memory: bool,
}

/// The old ledger.
pub open spec fn legacy_history_of(app: DataPathView) -> DataPathView {
    app.join("history.sqlite3"@)
}

/// The ledger of a profile.
pub open spec fn history_of(app: DataPathView, id: Seq<char>) -> DataPathView {
    profile_dir_of(app, id).join("history.sqlite3"@)
}

/// The copy of the part of the old ledger with the given suffix.
pub open spec fn ledger_copy(app: DataPathView, id: Seq<char>, suffix: Seq<char>) -> CopyStepView {
    CopyStepView {
        source: legacy_history_of(app).with_suffix(suffix),
        destination: history_of(app, id).with_suffix(suffix),
    }
}

/// The copies that bring the old ledger into a profile: the database, if it exists, and then its
/// write-ahead log and its shared memory as far as they exist.
pub open spec fn ledger_copies(app: DataPathView, id: Seq<char>, found: LegacyHistory) -> Seq<CopyStepView> {
    if !found.database {
        Seq::empty()
    } else {
        let database = seq![
            CopyStepView { source: legacy_history_of(app), destination: history_of(app, id) },
        ];
        let log = if found.write_ahead_log {
            seq![ledger_copy(app, id, "-wal"@)]
        } else {
            Seq::empty()
        };
        let memory = if found.shared_memory {
            seq![ledger_copy(app, id, "-shm"@)]
        } else {
            Seq::empty()
        };
        database + log + memory
    }
}

impl ProfileRegistry {
    /// The old ledger.
    pub fn legacy_history_path(&self) -> (r: DataPath)
        ensures
            r@ == legacy_history_of(self.app_data_root@),
    {
        self.app_data_root.join("history.sqlite3")
    }

    /// What only exists if the old installation has WebView data.
    pub fn legacy_webview_marker(&self) -> (r: DataPath)
        ensures
            r@ == self.local_data_root@.join("EBWebView"@),
            r@ == web_data_marker(self.local_data_root@),
    {
        self.local_data_root.join("EBWebView")
    }

    /// The copies that bring the old ledger into the profile.
    pub fn copy_legacy_history(&self, id: &ProfileId, found: LegacyHistory) -> (r: Vec<CopyStep>)
        ensures
            copy_views(r@) == ledger_copies(self.app_data_root@, id@, found),
    {
        let mut steps: Vec<CopyStep> = Vec::new();
        if !found.database {
            assert(copy_views(steps@) =~= ledger_copies(self.app_data_root@, id@, found));
            return steps;
        }
        let source: DataPath = self.legacy_history_path();
        let destination: DataPath = self.history_path(id);
        if found.write_ahead_log {
            steps.push(
                CopyStep { source: append_suffix(&source, "-wal"), destination: append_suffix(&destination, "-wal") },
            );
        }
        if found.shared_memory {
            steps.push(
                CopyStep { source: append_suffix(&source, "-shm"), destination: append_suffix(&destination, "-shm") },
            );
        }
        steps.insert(0, CopyStep { source, destination });
        assert(copy_views(steps@) =~= ledger_copies(self.app_data_root@, id@, found));
        steps
    }

    /// The directory that takes the old WebView data in, if there is any.
    pub fn copy_legacy_webview(&self, id: &ProfileId, root_exists: bool, marker_exists: bool) -> (r: Option<DataPath>)
        ensures
            match r {
                Some(directory) => {
                    &&& root_exists && marker_exists
                    &&& directory@ == webview_dir_of(self.local_data_root@, id@)
                },
                None => !(root_exists && marker_exists),
            },
            match r {
                Some(directory) => web_data_target(self.local_data_root@, id@, root_exists, marker_exists) == Some(
                    directory@,
                ),
                None => web_data_target(self.local_data_root@, id@, root_exists, marker_exists) is None,
            },
    {
        if root_exists && marker_exists {
            Some(self.webview_dir(id))
        } else {
            None
        }
    }
}

/// Whether an entry of the old WebView directory belongs to the WebView data. A name that is no
/// Unicode text does.
pub open spec fn is_legacy_data(name: Option<Seq<char>>) -> bool {
    match name {
        Some(text) => text != "launcher"@ && text != "profiles"@,
        None => true,
    }
}

/// Whether an entry of the old WebView directory is to be copied.
pub fn copies_legacy_entry(name: Option<&str>) -> (r: bool)
    ensures
        r == is_legacy_data(
            match name {
                Some(text) => Some(text@),
                None => None,
            },
        ),
{
    match name {
        Some(text) => !same_text(text, "launcher") && !same_text(text, "profiles"),
        None => true,
    }
}

/// How far the migration has come.
#[derive(Clone, Copy, Debug, PartialEq, Eq, Structural)]
pub enum MigrationStage {
    Copying,
    MakingDirectory,
    Saving,
}

/// A migration of old data into a new profile.
#[derive(Debug)]
pub struct MigrationTask {
    pub profile: ProfileRecord,
    pub profile_dir: DataPath,
    pub webview_dir: DataPath,
    pub stage: MigrationStage,
}

/// A migration with its texts as sequences of characters.
#[verifier::ext_equal]
pub struct MigrationTaskView {
    pub profile: ProfileRecordView,
    pub profile_dir: DataPathView,
    pub webview_dir: DataPathView,
    pub stage: MigrationStage,
}

impl View for MigrationTask {
    type V = MigrationTaskView;

    open spec fn view(&self) -> MigrationTaskView {
        MigrationTaskView {
            profile: self.profile@,
            profile_dir: self.profile_dir@,
            webview_dir: self.webview_dir@,
            stage: self.stage,
        }
    }
}

/// A step of the migration.
#[derive(Debug)]
pub enum MigrationAction {
    /// Copy the old data into the new profile's directories.
    Copy,
    MakeDirectory(DataPath),
    /// Save a registry that holds this profile alone.
    Save(ProfileRecord),
}

/// A step of the migration with its texts as sequences of characters.
pub enum MigrationActionView {
    Copy,
    MakeDirectory(DataPathView),
    Save(ProfileRecordView),
}

impl View for MigrationAction {
    type V = MigrationActionView;

    open spec fn view(&self) -> MigrationActionView {
        match self {
            MigrationAction::Copy => MigrationActionView::Copy,
            MigrationAction::MakeDirectory(path) => MigrationActionView::MakeDirectory(path@),
            MigrationAction::Save(profile) => MigrationActionView::Save(profile@),
        }
    }
}

/// What follows a step of the migration.
#[derive(Debug)]
pub enum MigrationProgress {
    Continue(MigrationTask),
    Done,
    Failed(String),
    /// The two directories are to be removed, and the message is to be reported.
    Undo(DataPath, DataPath, String),
}

/// What follows a step, with its texts as sequences of characters.
pub enum MigrationProgressView {
    Continue(MigrationTaskView),
    Done,
    Failed(Seq<char>),
    Undo(DataPathView, DataPathView, Seq<char>),
}

impl View for MigrationProgress {
    type V = MigrationProgressView;

    open spec fn view(&self) -> MigrationProgressView {
        match self {
            MigrationProgress::Continue(task) => MigrationProgressView::Continue(task@),
            MigrationProgress::Done => MigrationProgressView::Done,
            MigrationProgress::Failed(message) => MigrationProgressView::Failed(message@),
            MigrationProgress::Undo(a, b, message) => MigrationProgressView::Undo(a@, b@, message@),
        }
    }
}

impl MigrationTaskView {
    /// The step to take now.
    pub open spec fn action(self) -> MigrationActionView {
        match self.stage {
            MigrationStage::Copying => MigrationActionView::Copy,
            MigrationStage::MakingDirectory => MigrationActionView::MakeDirectory(self.profile_dir),
            MigrationStage::Saving => MigrationActionView::Save(self.profile),
        }
    }

    /// What follows the step.
    pub open spec fn after(self, outcome: Result<(), Seq<char>>) -> MigrationProgressView {
        match (self.stage, outcome) {
            (MigrationStage::Copying, Ok(())) => MigrationProgressView::Continue(
                MigrationTaskView { stage: MigrationStage::MakingDirectory, ..self },
            ),
            (MigrationStage::Copying, Err(error)) => MigrationProgressView::Undo(
                self.profile_dir,
                self.webview_dir,
                "Could not migrate existing Folio data: "@ + error,
            ),
            (MigrationStage::MakingDirectory, Ok(())) => MigrationProgressView::Continue(
                MigrationTaskView { stage: MigrationStage::Saving, ..self },
            ),
            (MigrationStage::MakingDirectory, Err(error)) => MigrationProgressView::Failed(error),
            (MigrationStage::Saving, Ok(())) => MigrationProgressView::Done,
            (MigrationStage::Saving, Err(error)) => MigrationProgressView::Failed(
                "Could not finalize the data migration: "@ + error,
            ),
        }
    }

    /// The steps that are taken when the outcomes come in turn.
    pub open spec fn steps(self, outcomes: Seq<Result<(), Seq<char>>>) -> Seq<MigrationActionView>
        decreases outcomes.len(),
    {
        if outcomes.len() == 0 {
            seq![self.action()]
        } else {
            match self.after(outcomes[0]) {
                MigrationProgressView::Continue(next) => seq![self.action()] + next.steps(outcomes.skip(1)),
                _ => seq![self.action()],
            }
        }
    }
}

impl ProfileRegistry {
    /// Starts to migrate old data into a profile named `Default`, unless there is a registry
    /// already.
    pub fn migrate_legacy(&self, registry_exists: bool, now: u64) -> (r: Option<MigrationTask>)
        ensures
            match r {
                Some(task) => {
                    &&& !registry_exists
                    &&& is_profile_id(task@.profile.id)
                    &&& task@ == (MigrationTaskView {
                        profile: record_of(task@.profile.id, "Default"@, 0, now),
                        profile_dir: profile_dir_of(self.app_data_root@, task@.profile.id),
                        webview_dir: webview_dir_of(self.local_data_root@, task@.profile.id),
                        stage: MigrationStage::Copying,
                    })
                    &&& task@ == fresh_migration(self.app_data_root@, self.local_data_root@, task@.profile.id, now)
                },
                None => registry_exists,
            },
    {
        if registry_exists {
            return None;
        }
        let profile: ProfileRecord = self.new_record("Default", 0, now);
        let profile_dir: DataPath = self.profile_dir(&profile.id);
        let webview_dir: DataPath = self.webview_dir(&profile.id);
        Some(MigrationTask { profile, profile_dir, webview_dir, stage: MigrationStage::Copying })
    }
}

impl MigrationTask {
    /// The step to take now.
    pub fn action(&self) -> (r: MigrationAction)
        ensures
            r@ == self@.action(),
    {
        match self.stage {
            MigrationStage::Copying => MigrationAction::Copy,
            MigrationStage::MakingDirectory => MigrationAction::MakeDirectory(self.profile_dir.clone()),
            MigrationStage::Saving => MigrationAction::Save(self.profile.clone()),
        }
    }

    /// What follows the step.
    pub fn report(self, outcome: Result<(), String>) -> (r: MigrationProgress)
        ensures
            r@ == self@.after(outcome_view(outcome)),
    {
        match self.stage {
            MigrationStage::Copying => match outcome {
                Ok(()) => {
                    let mut next: MigrationTask = self;
                    next.stage = MigrationStage::MakingDirectory;
                    MigrationProgress::Continue(next)
                },
                Err(error) => {
                    let mut message: String = "Could not migrate existing Folio data: ".to_owned();
                    message.append(error.as_str());
                    MigrationProgress::Undo(self.profile_dir, self.webview_dir, message)
                },
            },
            MigrationStage::MakingDirectory => match outcome {
                Ok(()) => {
                    let mut next: MigrationTask = self;
                    next.stage = MigrationStage::Saving;
                    MigrationProgress::Continue(next)
                },
                Err(error) => MigrationProgress::Failed(error),
            },
            MigrationStage::Saving => match outcome {
                Ok(()) => MigrationProgress::Done,
                Err(error) => {
                    let mut message: String = "Could not finalize the data migration: ".to_owned();
                    message.append(error.as_str());
                    MigrationProgress::Failed(message)
                },
            },
        }
    }
}

/// However the steps of a migration go, the registry is written only after every copy has
/// succeeded.
pub proof fn registry_follows_the_copies(task: MigrationTaskView, outcomes: Seq<Result<(), Seq<char>>>, at: int)
    requires
        task.stage == MigrationStage::Copying,
        0 <= at < task.steps(outcomes).len(),
        task.steps(outcomes)[at] is Save,
    ensures
        at == 2,
        outcomes.len() >= 2,
        outcomes[0] is Ok && outcomes[1] is Ok,
        task.steps(outcomes)[0] is Copy,
{
    reveal_with_fuel(MigrationTaskView::steps, 4);
    let steps = task.steps(outcomes);
    assert(steps[0] == task.action());
    if outcomes.len() > 0 && outcomes[0] is Ok {
        let second = MigrationTaskView { stage: MigrationStage::MakingDirectory, ..task };
        let later = outcomes.skip(1);
        assert(steps == seq![task.action()] + second.steps(later));
        assert(steps[1] == second.steps(later)[0]);
        if later.len() > 0 && later[0] is Ok {
            let third = MigrationTaskView { stage: MigrationStage::Saving, ..second };
            let last = later.skip(1);
            assert(second.steps(later) == seq![second.action()] + third.steps(last));
            assert(third.steps(last) == seq![third.action()]);
            assert(steps[2] == third.action());
        } else {
            assert(second.steps(later) == seq![second.action()]);
        }
    } else {
        assert(steps == seq![task.action()]);
    }
}

/// A migration leaves the old installation alone: every ledger file is copied into the new
/// profile's directory, and nothing that lies in the new profile's directories, which is all that
/// a failed migration removes, is part of the old ledger or of the old WebView data.
pub proof fn old_installation_stays(
    app: DataPathView,
    local: DataPathView,
    id: Seq<char>,
    found: LegacyHistory,
    place: DataPathView,
    entry: Seq<char>,
)
    requires
        is_legacy_data(Some(entry)),
    ensures
        forall|i: int| 0 <= i < ledger_copies(app, id, found).len() ==> (
        #[trigger] ledger_copies(app, id, found)[i]).destination.within(profile_dir_of(app, id)),
        place.within(profile_dir_of(app, id)) ==> !place.within(legacy_history_of(app)) && !place.within(
            legacy_history_of(app).with_suffix("-wal"@),
        ) && !place.within(legacy_history_of(app).with_suffix("-shm"@)),
        place.within(webview_dir_of(local, id)) ==> !place.within(local.join(entry)),
{
    reveal_strlit("profiles");
    reveal_strlit("history.sqlite3");
    reveal_strlit("-wal");
    reveal_strlit("-shm");
    let dir = profile_dir_of(app, id);
    let to = history_of(app, id);
    assert(to.names.take(dir.names.len() as int) =~= dir.names);
    assert(to.with_suffix("-wal"@).names.take(dir.names.len() as int) =~= dir.names);
    assert(to.with_suffix("-shm"@).names.take(dir.names.len() as int) =~= dir.names);
    let n = app.names.len() as int;
    if place.within(dir) {
        assert(place.names.take(n + 2)[n] == dir.names[n]);
        assert(place.names[n] == "profiles"@);
        assert("profiles"@.len() == 8);
        assert("history.sqlite3"@.len() == 15);
        let old = legacy_history_of(app);
        assert(old.names[n] == "history.sqlite3"@);
        assert(old.with_suffix("-wal"@).names[n] == "history.sqlite3"@ + "-wal"@);
        assert(old.with_suffix("-shm"@).names[n] == "history.sqlite3"@ + "-shm"@);
        if place.within(old) {
            assert(place.names.take(n + 1)[n] == "history.sqlite3"@);
        }
        if place.within(old.with_suffix("-wal"@)) {
            assert(place.names.take(n + 1)[n].len() == 19);
        }
        if place.within(old.with_suffix("-shm"@)) {
            assert(place.names.take(n + 1)[n].len() == 19);
        }
    }
    let m = local.names.len() as int;
    let view = webview_dir_of(local, id);
    if place.within(view) {
        assert(place.names.take(m + 3)[m] == view.names[m]);
        assert(place.names[m] == "profiles"@);
        if place.within(local.join(entry)) {
            assert(place.names.take(m + 1)[m] == local.join(entry).names[m]);
        }
    }
}

/// How many copies are made from one place to another.
pub open spec fn copies_from_to(copies: Seq<CopyStepView>, source: DataPathView, destination: DataPathView) -> nat
    decreases copies.len(),
{
    if copies.len() == 0 {
        0
    } else {
        copies_from_to(copies.drop_last(), source, destination) + if copies.last().source == source
            && copies.last().destination == destination {
            1nat
        } else {
            0nat
        }
    }
}

/// The file of a name in the directory of the old installation.
pub open spec fn in_old(app: DataPathView, name: Seq<char>) -> DataPathView {
    DataPathView { base: app.base, names: app.names + seq![name] }
}

/// The file of a name in the directory of a profile.
pub open spec fn in_profile(app: DataPathView, id: Seq<char>, name: Seq<char>) -> DataPathView {
    DataPathView { base: app.base, names: app.names + seq!["profiles"@, id, name] }
}

/// If the old ledger exists, each of its three files that exists, the database, its write-ahead log
/// and its shared memory, is copied exactly once, to the file of the same name in the new profile's
/// directory, and nothing else is copied. Without the database nothing is.
pub proof fn every_ledger_file_is_copied_once(app: DataPathView, id: Seq<char>, found: LegacyHistory)
    ensures
        ({
            let copies = ledger_copies(app, id, found);
            let database = "history.sqlite3"@;
            let log = "history.sqlite3-wal"@;
            let memory = "history.sqlite3-shm"@;
            &&& copies_from_to(copies, in_old(app, database), in_profile(app, id, database)) == (if found.database {
                1nat
            } else {
                0nat
            })
            &&& copies_from_to(copies, in_old(app, log), in_profile(app, id, log)) == (if found.database
                && found.write_ahead_log {
                1nat
            } else {
                0nat
            })
            &&& copies_from_to(copies, in_old(app, memory), in_profile(app, id, memory)) == (if found.database
                && found.shared_memory {
                1nat
            } else {
                0nat
            })
            &&& forall|i: int|
                0 <= i < copies.len() ==> {
                    ||| (#[trigger] copies[i]).source == in_old(app, database) && copies[i].destination == in_profile(
                        app,
                        id,
                        database,
                    )
                    ||| copies[i].source == in_old(app, log) && copies[i].destination == in_profile(app, id, log)
                    ||| copies[i].source == in_old(app, memory) && copies[i].destination == in_profile(app, id, memory)
                }
        }),
{
    reveal_strlit("history.sqlite3");
    reveal_strlit("history.sqlite3-wal");
    reveal_strlit("history.sqlite3-shm");
    reveal_strlit("-wal");
    reveal_strlit("-shm");
    let database = "history.sqlite3"@;
    let log = "history.sqlite3-wal"@;
    let memory = "history.sqlite3-shm"@;
    assert(database + "-wal"@ =~= log);
    assert(database + "-shm"@ =~= memory);
    assert(log[16] == 'w' && memory[16] == 's');
    let copies = ledger_copies(app, id, found);
    let first = CopyStepView { source: in_old(app, database), destination: in_profile(app, id, database) };
    let second = CopyStepView { source: in_old(app, log), destination: in_profile(app, id, log) };
    let third = CopyStepView { source: in_old(app, memory), destination: in_profile(app, id, memory) };
    assert(legacy_history_of(app) =~= first.source);
    assert(history_of(app, id) =~= first.destination);
    let old = legacy_history_of(app);
    let new = history_of(app, id);
    assert(old.with_suffix("-wal"@) =~= second.source);
    assert(new.with_suffix("-wal"@) =~= second.destination);
    assert(old.with_suffix("-shm"@) =~= third.source);
    assert(new.with_suffix("-shm"@) =~= third.destination);
    let n = app.names.len() as int;
    assert(first.source.names[n] == database && second.source.names[n] == log && third.source.names[n] == memory);
    assert(first.source != second.source && first.source != third.source && second.source != third.source);
    reveal_with_fuel(copies_from_to, 4);
    if found.database {
        if found.write_ahead_log && found.shared_memory {
            assert(copies =~= seq![first, second, third]);
            assert(copies.drop_last() =~= seq![first, second]);
            assert(copies.drop_last().drop_last() =~= seq![first]);
        } else if found.write_ahead_log {
            assert(copies =~= seq![first, second]);
            assert(copies.drop_last() =~= seq![first]);
        } else if found.shared_memory {
            assert(copies =~= seq![first, third]);
            assert(copies.drop_last() =~= seq![first]);
        } else {
            assert(copies =~= seq![first]);
        }
    }
}

/// Of the old WebView data everything is taken over but the directories of the picker and of the
/// profiles, also what has no readable name.
pub proof fn old_web_data_is_taken_over(name: Seq<char>)
    ensures
        is_legacy_data(None),
        is_legacy_data(Some(name)) <==> name != "launcher"@ && name != "profiles"@,
{
}

/// A migration copies, makes the profile's directory and saves the profile, in this order. If the
/// copying fails, both of the new profile's directories are to be removed and the error is told;
/// later errors are told and nothing is removed.
pub proof fn migration_takes_its_steps_in_order(task: MigrationTaskView, error: Seq<char>)
    ensures
        task.stage == MigrationStage::Copying ==> {
            &&& task.action() is Copy
            &&& task.after(Ok(())) == MigrationProgressView::Continue(
                MigrationTaskView { stage: MigrationStage::MakingDirectory, ..task },
            )
            &&& task.after(Err(error)) == MigrationProgressView::Undo(
                task.profile_dir,
                task.webview_dir,
                "Could not migrate existing Folio data: "@ + error,
            )
        },
        task.stage == MigrationStage::MakingDirectory ==> {
            &&& task.action() == MigrationActionView::MakeDirectory(task.profile_dir)
            &&& task.after(Ok(())) == MigrationProgressView::Continue(
                MigrationTaskView { stage: MigrationStage::Saving, ..task },
            )
            &&& task.after(Err(error)) == MigrationProgressView::Failed(error)
        },
        task.stage == MigrationStage::Saving ==> {
            &&& task.action() == MigrationActionView::Save(task.profile)
            &&& task.after(Ok(())) is Done
            &&& task.after(Err(error)) == MigrationProgressView::Failed(
                "Could not finalize the data migration: "@ + error,
            )
        },
{
}

/// A migration into the profile with the given identifier, from its first step on.
pub open spec fn fresh_migration(app: DataPathView, local: DataPathView, id: Seq<char>, now: u64) -> MigrationTaskView {
    MigrationTaskView {
        profile: record_of(id, "Default"@, 0, now),
        profile_dir: profile_dir_of(app, id),
        webview_dir: webview_dir_of(local, id),
        stage: MigrationStage::Copying,
    }
}

/// Old data is migrated into a new profile that is called `Default`, was created at that time and
/// was never used, with the directories that this profile has.
pub proof fn migration_makes_the_default_profile(app: DataPathView, local: DataPathView, id: Seq<char>, now: u64)
    ensures
        ({
            let task = fresh_migration(app, local, id, now);
            &&& task.profile.id == id
            &&& task.profile.name == "Default"@
            &&& task.profile.created_at == now
            &&& task.profile.last_used_at is None
            &&& task.profile_dir == (DataPathView { base: app.base, names: app.names + seq!["profiles"@, id] })
            &&& task.webview_dir == (DataPathView {
                base: local.base,
                names: local.names + seq!["profiles"@, id, "webview"@],
            })
            &&& task.action() is Copy
        }),
{
    reveal_strlit("Default");
    crate::text::trimming_takes_the_ends(Seq::empty(), "Default"@, Seq::empty());
    assert(Seq::<char>::empty() + "Default"@ + Seq::<char>::empty() =~= "Default"@);
    let task = fresh_migration(app, local, id, now);
    assert(task.profile_dir.names =~= app.names + seq!["profiles"@, id]);
    assert(task.webview_dir.names =~= local.names + seq!["profiles"@, id, "webview"@]);
}

/// The directory that takes the old WebView data in, if there is any.
pub open spec fn web_data_target(
    local: DataPathView,
    id: Seq<char>,
    root_exists: bool,
    marker_exists: bool,
) -> Option<DataPathView> {
    if root_exists && marker_exists {
        Some(webview_dir_of(local, id))
    } else {
        None
    }
}

/// What only exists if the old installation has WebView data.
pub open spec fn web_data_marker(local: DataPathView) -> DataPathView {
    local.join("EBWebView"@)
}

/// Old WebView data, which `EBWebView` in its directory tells, goes to the WebView directory of the new
/// profile; where the directory or that sign is missing, there is none to take over.
pub proof fn old_web_data_goes_to_the_profile(local: DataPathView, id: Seq<char>, root_exists: bool, marker_exists: bool)
    ensures
        web_data_target(local, id, true, true) == Some(
            DataPathView { base: local.base, names: local.names + seq!["profiles"@, id, "webview"@] },
        ),
        !root_exists || !marker_exists ==> web_data_target(local, id, root_exists, marker_exists) is None,
        web_data_marker(local) == (DataPathView { base: local.base, names: local.names + seq!["EBWebView"@] }),
{
    assert(webview_dir_of(local, id).names =~= local.names + seq!["profiles"@, id, "webview"@]);
    assert(web_data_marker(local).names =~= local.names + seq!["EBWebView"@]);
}

} // verus!
