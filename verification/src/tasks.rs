//! Changes of the registry that take several steps on disk, each decided from how the last one
//! went.

use crate::paths::{DataPath, DataPathView};
use crate::profile::{
    copy_records, is_profile_id, record_of, record_views, record_with_id, ProfileId, ProfileRecord,
    ProfileRecordView,
};
use crate::registry::{
    find_index, found_in, position, profile_dir_of, webview_dir_of, without, without_leaves_the_others,
    ProfileRegistry,
};
use crate::text::{decimal, decimal_text, same_text};
use vstd::prelude::*;

verus! {

/// The view of how a step went.
pub open spec fn outcome_view(outcome: Result<(), String>) -> Result<(), Seq<char>> {
    match outcome {
        Ok(()) => Ok(()),
        Err(message) => Err(message@),
    }
}

/// The view of profiles that were loaded or could not be.
pub open spec fn loaded_view(loaded: Result<Vec<ProfileRecord>, String>) -> Result<Seq<ProfileRecordView>, Seq<char>> {
    match loaded {
        Ok(profiles) => Ok(record_views(profiles@)),
        Err(message) => Err(message@),
    }
}

/// The locks that keep Folio's processes apart.
#[derive(Clone, Copy, Debug, PartialEq, Eq, Structural)]
pub enum LockKind {
    /// Held while the registry is edited.
    Registry,
    /// Held while a profile is open.
    Profile,
    /// Held while a profile's browser starts.
    Launch,
}

impl LockKind {
    /// What is said when another process holds the lock.
    pub open spec fn conflict(self) -> Seq<char> {
        match self {
            LockKind::Registry => "Another Folio launcher is editing profiles right now. Try again in a moment."@,
            LockKind::Profile => "This profile is already open in another window."@,
            LockKind::Launch => "This profile is already starting in another window."@,
        }
    }

    /// What is said when another process holds the lock.
    pub fn conflict_message(self) -> (r: String)
        ensures
            r@ == self.conflict(),
    {
        match self {
            LockKind::Registry => "Another Folio launcher is editing profiles right now. Try again in a moment.".to_owned(),
            LockKind::Profile => "This profile is already open in another window.".to_owned(),
            LockKind::Launch => "This profile is already starting in another window.".to_owned(),
        }
    }
}

/// What a lock's file holds while the process `pid` has the lock.
pub fn lock_note(pid: u32) -> (r: String)
    ensures
        r@ == decimal(pid as nat) + "\n"@,
{
    let mut note: String = decimal_text(pid as u64);
    note.append("\n");
    note
}

/// A profile that is about to be created.
#[derive(Debug)]
pub struct CreateTask {
    pub record: ProfileRecord,
    /// The directory to make before the registry is saved.
    pub directory: DataPath,
    /// What the registry is to hold.
    pub profiles: Vec<ProfileRecord>,
}

/// How the creation of a profile ends.
#[derive(Debug)]
pub enum CreateEnd {
    Created(ProfileRecord),
    /// The new directory is to be removed, and the message is to be reported.
    Undo(DataPath, String),
}

impl ProfileRegistry {
    /// The record of a profile that is created at `now`, when `index` others exist. Its identifier
    /// is drawn at random.
    pub fn new_record(&self, name: &str, index: usize, now: u64) -> (r: ProfileRecord)
        ensures
            is_profile_id(r@.id),
            r@ == record_of(r@.id, name@, index as nat, now),
    {
        record_with_id(ProfileId::new(), name, index, now)
    }

    /// A new profile, to be put behind those that the registry holds.
    pub fn create(&self, name: &str, now: u64, profiles: Vec<ProfileRecord>) -> (r: CreateTask)
        ensures
            is_profile_id(r.record@.id),
            r.record@ == record_of(r.record@.id, name@, profiles@.len(), now),
            r.directory@ == profile_dir_of(self.app_data_root@, r.record@.id),
            record_views(r.profiles@) == record_views(profiles@).push(r.record@),
            record_views(r.profiles@) == with_created(record_views(profiles@), r.record@.id, name@, now),
            r.record@ == record_views(r.profiles@).last(),
    {
        let record: ProfileRecord = self.new_record(name, profiles.len(), now);
        let directory: DataPath = self.profile_dir(&record.id);
        let mut all: Vec<ProfileRecord> = profiles;
        all.push(record.clone());
        assert(record_views(all@) =~= record_views(profiles@).push(record@));
        CreateTask { record, directory, profiles: all }
    }
}

impl CreateTask {
    /// The end of the creation, once the registry was saved or could not be.
    pub fn saved(self, outcome: Result<(), String>) -> (r: CreateEnd)
        ensures
            match (r, outcome) {
                (CreateEnd::Created(record), Ok(())) => record@ == self.record@,
                (CreateEnd::Undo(directory, message), Err(error)) => {
                    &&& directory@ == self.directory@
                    &&& message@ == error@
                },
                _ => false,
            },
            create_end_view(r) == creation_end(self.record@, self.directory@, outcome_view(outcome)),
    {
        match outcome {
            Ok(()) => CreateEnd::Created(self.record),
            Err(message) => CreateEnd::Undo(self.directory, message),
        }
    }
}

/// Why a profile cannot be started, if it cannot.
pub open spec fn launch_refusal(
    loaded: Result<Seq<ProfileRecordView>, Seq<char>>,
    id: Seq<char>,
    open: bool,
    starting: bool,
) -> Option<Seq<char>> {
    match loaded {
        Err(message) => Some(message),
        Ok(profiles) => if find_index(profiles, id) is None {
            Some("That profile no longer exists."@)
        } else if open {
            Some(LockKind::Profile.conflict())
        } else if starting {
            Some(LockKind::Launch.conflict())
        } else {
            None
        },
    }
}

impl ProfileRegistry {
    /// The lock to take while the profile's browser starts. `open` and `starting` tell whether
    /// another process holds the profile's lock or its launch lock.
    pub fn reserve_launch(
        &self,
        id: &ProfileId,
        loaded: Result<Vec<ProfileRecord>, String>,
        open: bool,
        starting: bool,
    ) -> (r: Result<DataPath, String>)
        ensures
            match (r, launch_refusal(loaded_view(loaded), id@, open, starting)) {
                (Ok(path), None) => {
                    &&& path@ == profile_dir_of(self.app_data_root@, id@).join("launch.lock"@)
                    &&& path@ == crate::registry::launch_lock_path_of(self.app_data_root@, id@)
                },
                (Err(message), Some(refusal)) => message@ == refusal,
                _ => false,
            },
    {
        match loaded {
            Ok(profiles) => {
                if position(&profiles, id).is_none() {
                    return Err("That profile no longer exists.".to_owned());
                }
                if open {
                    return Err(LockKind::Profile.conflict_message());
                }
                if starting {
                    return Err(LockKind::Launch.conflict_message());
                }
                Ok(self.launch_lock_path(id))
            },
            Err(message) => Err(message),
        }
    }

    /// The profile whose lock is to be taken for its browser. `open` tells whether another process
    /// holds it.
    pub fn acquire_for_launch(
        &self,
        id: &ProfileId,
        loaded: Result<Vec<ProfileRecord>, String>,
        open: bool,
    ) -> (r: Result<ProfileRecord, String>)
        ensures
            match (r, launch_refusal(loaded_view(loaded), id@, open, false)) {
                (Ok(record), None) => {
                    &&& loaded_view(loaded) matches Ok(profiles)
                    &&& found_in(profiles, id@) == Some(record@)
                },
                (Err(message), Some(refusal)) => message@ == refusal,
                _ => false,
            },
    {
        match loaded {
            Ok(profiles) => match position(&profiles, id) {
                Some(i) => {
                    if open {
                        Err(LockKind::Profile.conflict_message())
                    } else {
                        Ok(profiles[i].clone())
                    }
                },
                None => Err("That profile no longer exists.".to_owned()),
            },
            Err(message) => Err(message),
        }
    }
}

/// What is said when the lock of a profile that is to be opened cannot be taken.
pub fn lock_failure(message: &str, profile: &ProfileRecord) -> (r: String)
    ensures
        r@ == message@ + ": "@ + profile@.name,
        r@ == lock_failure_text(message@, profile@.name),
{
    let mut text: String = message.to_owned();
    text.append(": ");
    text.append(profile.name.as_str());
    text
}

/// What is said when a browser cannot start for the given profile.
pub fn startup_failure(message: &str, id: &ProfileId) -> (r: String)
    ensures
        r@ == if message@ == "That profile no longer exists."@ {
            "Unknown profile id: "@ + id@
        } else {
            message@
        },
        r@ == start_failure(message@, id@),
{
    if same_text(message, "That profile no longer exists.") {
        let mut text: String = "Unknown profile id: ".to_owned();
        text.append(id.as_str());
        text
    } else {
        message.to_owned()
    }
}

/// How far the deletion of a profile has come.
#[derive(Clone, Copy, Debug, PartialEq, Eq, Structural)]
pub enum DeleteStage {
    ProfileData,
    WebviewData,
    Registry,
}

/// A profile that is being deleted.
#[derive(Debug)]
pub struct DeleteTask {
    pub profile_dir: DataPath,
    pub webview_dir: DataPath,
    /// What the registry is to hold in the end.
    pub remaining: Vec<ProfileRecord>,
    pub stage: DeleteStage,
}

/// A deletion with its texts as sequences of characters.
#[verifier::ext_equal]
pub struct DeleteTaskView {
    pub profile_dir: DataPathView,
    pub webview_dir: DataPathView,
    pub remaining: Seq<ProfileRecordView>,
    pub stage: DeleteStage,
}

impl View for DeleteTask {
    type V = DeleteTaskView;

    open spec fn view(&self) -> DeleteTaskView {
        DeleteTaskView {
            profile_dir: self.profile_dir@,
            webview_dir: self.webview_dir@,
            remaining: record_views(self.remaining@),
            stage: self.stage,
        }
    }
}

/// A step of a deletion.
#[derive(Debug)]
pub enum DeleteAction {
    /// Remove the directory and what it holds, if it is there.
    Remove(DataPath),
    /// Save a registry that holds these profiles.
    Save(Vec<ProfileRecord>),
}

/// A step of a deletion with its texts as sequences of characters.
pub enum DeleteActionView {
    Remove(DataPathView),
    Save(Seq<ProfileRecordView>),
}

impl View for DeleteAction {
    type V = DeleteActionView;

    open spec fn view(&self) -> DeleteActionView {
        match self {
            DeleteAction::Remove(path) => DeleteActionView::Remove(path@),
            DeleteAction::Save(profiles) => DeleteActionView::Save(record_views(profiles@)),
        }
    }
}

/// What follows a step of a deletion.
#[derive(Debug)]
pub enum DeleteProgress {
    Continue(DeleteTask),
    Finished(Result<(), String>),
}

/// What follows a step, with its texts as sequences of characters.
pub enum DeleteProgressView {
    Continue(DeleteTaskView),
    Finished(Result<(), Seq<char>>),
}

impl View for DeleteProgress {
    type V = DeleteProgressView;

    open spec fn view(&self) -> DeleteProgressView {
        match self {
            DeleteProgress::Continue(task) => DeleteProgressView::Continue(task@),
            DeleteProgress::Finished(outcome) => DeleteProgressView::Finished(outcome_view(*outcome)),
        }
    }
}

impl DeleteTaskView {
    /// The step to take now.
    pub open spec fn action(self) -> DeleteActionView {
        match self.stage {
            DeleteStage::ProfileData => DeleteActionView::Remove(self.profile_dir),
            DeleteStage::WebviewData => DeleteActionView::Remove(self.webview_dir),
            DeleteStage::Registry => DeleteActionView::Save(self.remaining),
        }
    }

    /// What follows the step.
    pub open spec fn after(self, outcome: Result<(), Seq<char>>) -> DeleteProgressView {
        match (self.stage, outcome) {
            (DeleteStage::ProfileData, Ok(())) => DeleteProgressView::Continue(
                DeleteTaskView { stage: DeleteStage::WebviewData, ..self },
            ),
            (DeleteStage::ProfileData, Err(error)) => DeleteProgressView::Finished(
                Err(
                    "Could not delete this profile's history data. The profile remains registered so you can retry: "@
                        + error,
                ),
            ),
            (DeleteStage::WebviewData, Ok(())) => DeleteProgressView::Continue(
                DeleteTaskView { stage: DeleteStage::Registry, ..self },
            ),
            (DeleteStage::WebviewData, Err(error)) => DeleteProgressView::Finished(
                Err(
                    "Could not delete this profile's WebView data. The profile remains registered so you can retry: "@
                        + error,
                ),
            ),
            (DeleteStage::Registry, end) => DeleteProgressView::Finished(end),
        }
    }

    /// The steps that are taken when the outcomes come in turn.
    pub open spec fn steps(self, outcomes: Seq<Result<(), Seq<char>>>) -> Seq<DeleteActionView>
        decreases outcomes.len(),
    {
        if outcomes.len() == 0 {
            seq![self.action()]
        } else {
            match self.after(outcomes[0]) {
                DeleteProgressView::Continue(next) => seq![self.action()] + next.steps(outcomes.skip(1)),
                DeleteProgressView::Finished(_) => seq![self.action()],
            }
        }
    }
}

/// Why a profile cannot be deleted, if it cannot.
pub open spec fn delete_refusal(
    loaded: Result<Seq<ProfileRecordView>, Seq<char>>,
    id: Seq<char>,
    open: bool,
    starting: bool,
) -> Option<Seq<char>> {
    if open || starting {
        Some("Close this profile's window before deleting it."@)
    } else {
        match loaded {
            Err(message) => Some(message),
            Ok(profiles) => if find_index(profiles, id) is None {
                Some("That profile no longer exists."@)
            } else {
                None
            },
        }
    }
}

impl ProfileRegistry {
    /// Starts to remove a profile entirely. Refuses while it is open or starting.
    pub fn delete(
        &self,
        id: &ProfileId,
        open: bool,
        starting: bool,
        loaded: Result<Vec<ProfileRecord>, String>,
    ) -> (r: Result<DeleteTask, String>)
        ensures
            match (r, delete_refusal(loaded_view(loaded), id@, open, starting)) {
                (Ok(task), None) => {
                    &&& loaded_view(loaded) matches Ok(profiles)
                    &&& task@ == (DeleteTaskView {
                        profile_dir: profile_dir_of(self.app_data_root@, id@),
                        webview_dir: webview_dir_of(self.local_data_root@, id@),
                        remaining: without(profiles, id@),
                        stage: DeleteStage::ProfileData,
                    })
                    &&& task@ == fresh_deletion(self.app_data_root@, self.local_data_root@, profiles, id@)
                },
                (Err(message), Some(refusal)) => message@ == refusal,
                _ => false,
            },
    {
        if open || starting {
            return Err("Close this profile's window before deleting it.".to_owned());
        }
        match loaded {
            Ok(profiles) => {
                let remaining: Vec<ProfileRecord> = retain_others(&profiles, id);
                proof {
                    without_leaves_the_others(record_views(profiles@), id@);
                    assert(record_views(remaining@).len() == remaining@.len());
                    assert(record_views(profiles@).len() == profiles@.len());
                }
                if remaining.len() == profiles.len() {
                    return Err("That profile no longer exists.".to_owned());
                }
                Ok(
                    DeleteTask {
                        profile_dir: self.profile_dir(id),
                        webview_dir: self.webview_dir(id),
                        remaining,
                        stage: DeleteStage::ProfileData,
                    },
                )
            },
            Err(message) => Err(message),
        }
    }
}

/// The profiles but for those with the given identifier.
fn retain_others(profiles: &Vec<ProfileRecord>, id: &ProfileId) -> (r: Vec<ProfileRecord>)
    ensures
        record_views(r@) == without(record_views(profiles@), id@),
{
    let ghost views = record_views(profiles@);
    let mut r: Vec<ProfileRecord> = Vec::new();
    let mut i: usize = 0;
    assert(record_views(r@) =~= without(views.take(0), id@));
    while i < profiles.len()
        invariant
            i <= profiles@.len(),
            views == record_views(profiles@),
            record_views(r@) == without(views.take(i as int), id@),
        decreases profiles@.len() - i,
    {
        let ghost before = record_views(r@);
        if !same_text(profiles[i].id.as_str(), id.as_str()) {
            r.push(profiles[i].clone());
            assert(record_views(r@) =~= before.push(views[i as int]));
        }
        i = i + 1;
        assert(views.take(i as int).drop_last() =~= views.take(i - 1));
        assert(views.take(i as int).last() == views[i - 1]);
    }
    assert(views.take(i as int) =~= views);
    r
}

impl DeleteTask {
    /// The step to take now.
    pub fn action(&self) -> (r: DeleteAction)
        ensures
            r@ == self@.action(),
    {
        match self.stage {
            DeleteStage::ProfileData => DeleteAction::Remove(self.profile_dir.clone()),
            DeleteStage::WebviewData => DeleteAction::Remove(self.webview_dir.clone()),
            DeleteStage::Registry => DeleteAction::Save(copy_records(&self.remaining)),
        }
    }

    /// What follows the step.
    pub fn report(self, outcome: Result<(), String>) -> (r: DeleteProgress)
        ensures
            r@ == self@.after(outcome_view(outcome)),
    {
        match self.stage {
            DeleteStage::ProfileData => match outcome {
                Ok(()) => {
                    let mut next: DeleteTask = self;
                    next.stage = DeleteStage::WebviewData;
                    DeleteProgress::Continue(next)
                },
                Err(error) => {
                    let mut message: String =
                        "Could not delete this profile's history data. The profile remains registered so you can retry: ".to_owned();
                    message.append(error.as_str());
                    DeleteProgress::Finished(Err(message))
                },
            },
            DeleteStage::WebviewData => match outcome {
                Ok(()) => {
                    let mut next: DeleteTask = self;
                    next.stage = DeleteStage::Registry;
                    DeleteProgress::Continue(next)
                },
                Err(error) => {
                    let mut message: String =
                        "Could not delete this profile's WebView data. The profile remains registered so you can retry: ".to_owned();
                    message.append(error.as_str());
                    DeleteProgress::Finished(Err(message))
                },
            },
            DeleteStage::Registry => DeleteProgress::Finished(outcome),
        }
    }
}

/// However the steps of a deletion go, a profile leaves the registry only after both of its
/// directories were removed; until then it stays recorded.
pub proof fn record_outlives_its_data(task: DeleteTaskView, outcomes: Seq<Result<(), Seq<char>>>, at: int)
    requires
        task.stage == DeleteStage::ProfileData,
        0 <= at < task.steps(outcomes).len(),
        task.steps(outcomes)[at] is Save,
    ensures
        at == 2,
        outcomes.len() >= 2,
        outcomes[0] is Ok && outcomes[1] is Ok,
        task.steps(outcomes)[0] == DeleteActionView::Remove(task.profile_dir),
        task.steps(outcomes)[1] == DeleteActionView::Remove(task.webview_dir),
        task.steps(outcomes)[2] == DeleteActionView::Save(task.remaining),
{
    reveal_with_fuel(DeleteTaskView::steps, 4);
    let steps = task.steps(outcomes);
    assert(steps[0] == task.action());
    if outcomes.len() > 0 && outcomes[0] is Ok {
        let second = DeleteTaskView { stage: DeleteStage::WebviewData, ..task };
        let later = outcomes.skip(1);
        assert(steps == seq![task.action()] + second.steps(later));
        assert(steps[1] == second.steps(later)[0]);
        if later.len() > 0 && later[0] is Ok {
            let third = DeleteTaskView { stage: DeleteStage::Registry, ..second };
            let last = later.skip(1);
            assert(second.steps(later) == seq![second.action()] + third.steps(last));
            assert(third.steps(last) == seq![third.action()]);
            assert(steps[2] == third.action());
        } else {
            assert(second.steps(later) == seq![second.action()]);
        }
    } else {
        assert(steps == seq![task.action()]);
    }
}

/// A profile that is open or starting is never deleted, whatever the registry holds.
pub proof fn open_profile_is_not_deleted(
    loaded: Result<Seq<ProfileRecordView>, Seq<char>>,
    id: Seq<char>,
    open: bool,
    starting: bool,
)
    requires
        open || starting,
    ensures
        delete_refusal(loaded, id, open, starting) is Some,
{
}

/// A profile that is open is never opened a second time, and one that is starting is not reserved
/// again.
pub proof fn open_profile_is_not_opened_again(
    loaded: Result<Seq<ProfileRecordView>, Seq<char>>,
    id: Seq<char>,
    open: bool,
    starting: bool,
)
    requires
        open || starting,
    ensures
        launch_refusal(loaded, id, open, starting) is Some,
{
}

/// A profile that is recorded and that no process holds can be started and can be deleted; one that
/// is not recorded can be neither, and one that could not be looked up neither. What is said tells
/// which of these it is.
pub proof fn profile_is_free_or_the_reason_is_told(
    profiles: Seq<ProfileRecordView>,
    id: Seq<char>,
    at: int,
    open: bool,
    starting: bool,
    error: Seq<char>,
)
    ensures
        0 <= at < profiles.len() && profiles[at].id == id ==> {
            &&& launch_refusal(Ok(profiles), id, false, false) is None
            &&& delete_refusal(Ok(profiles), id, false, false) is None
            &&& launch_refusal(Ok(profiles), id, true, starting) == Some(
                "This profile is already open in another window."@,
            )
            &&& launch_refusal(Ok(profiles), id, false, true) == Some(
                "This profile is already starting in another window."@,
            )
        },
        (forall|i: int| 0 <= i < profiles.len() ==> (#[trigger] profiles[i]).id != id) ==> {
            &&& launch_refusal(Ok(profiles), id, open, starting) == Some("That profile no longer exists."@)
            &&& delete_refusal(Ok(profiles), id, false, false) == Some("That profile no longer exists."@)
        },
        launch_refusal(Err(error), id, open, starting) == Some(error),
        delete_refusal(Err(error), id, false, false) == Some(error),
        open || starting ==> delete_refusal(Ok(profiles), id, open, starting) == Some(
            "Close this profile's window before deleting it."@,
        ),
{
    crate::registry::found_is_first(profiles, id);
}

/// What is said of each lock that another process holds.
pub proof fn every_lock_has_its_message()
    ensures
        LockKind::Registry.conflict()
            == "Another Folio launcher is editing profiles right now. Try again in a moment."@,
        LockKind::Profile.conflict() == "This profile is already open in another window."@,
        LockKind::Launch.conflict() == "This profile is already starting in another window."@,
{
}

/// A deletion removes the profile's data, then its WebView data, and then saves the registry without
/// the profile; a step that fails ends it with the error.
pub proof fn deletion_takes_its_steps_in_order(task: DeleteTaskView, error: Seq<char>)
    ensures
        task.stage == DeleteStage::ProfileData ==> {
            &&& task.action() == DeleteActionView::Remove(task.profile_dir)
            &&& task.after(Ok(())) == DeleteProgressView::Continue(
                DeleteTaskView { stage: DeleteStage::WebviewData, ..task },
            )
            &&& task.after(Err(error)) == DeleteProgressView::Finished(
                Err(
                    "Could not delete this profile's history data. The profile remains registered so you can retry: "@
                        + error,
                ),
            )
        },
        task.stage == DeleteStage::WebviewData ==> {
            &&& task.action() == DeleteActionView::Remove(task.webview_dir)
            &&& task.after(Ok(())) == DeleteProgressView::Continue(
                DeleteTaskView { stage: DeleteStage::Registry, ..task },
            )
            &&& task.after(Err(error)) == DeleteProgressView::Finished(
                Err(
                    "Could not delete this profile's WebView data. The profile remains registered so you can retry: "@
                        + error,
                ),
            )
        },
        task.stage == DeleteStage::Registry ==> {
            &&& task.action() == DeleteActionView::Save(task.remaining)
            &&& task.after(Ok(())) == DeleteProgressView::Finished(Ok(()))
            &&& task.after(Err(error)) == DeleteProgressView::Finished(Err(error))
        },
{
}

/// The deletion of a recorded profile, from its first step on.
pub open spec fn fresh_deletion(
    app: DataPathView,
    local: DataPathView,
    profiles: Seq<ProfileRecordView>,
    id: Seq<char>,
) -> DeleteTaskView {
    DeleteTaskView {
        profile_dir: profile_dir_of(app, id),
        webview_dir: webview_dir_of(local, id),
        remaining: without(profiles, id),
        stage: DeleteStage::ProfileData,
    }
}

/// A deletion that goes well removes both directories of its profile and leaves the registry with all
/// other profiles and without that one.
pub proof fn deletion_removes_the_profile(
    app: DataPathView,
    local: DataPathView,
    profiles: Seq<ProfileRecordView>,
    id: Seq<char>,
    record: ProfileRecordView,
)
    ensures
        ({
            let first = fresh_deletion(app, local, profiles, id);
            &&& first.action() == DeleteActionView::Remove(crate::registry::below(app, seq!["profiles"@, id]))
            &&& first.after(Ok(())) matches DeleteProgressView::Continue(second)
            &&& second.action() == DeleteActionView::Remove(
                crate::registry::below(local, seq!["profiles"@, id, "webview"@]),
            )
            &&& second.after(Ok(())) matches DeleteProgressView::Continue(third)
            &&& third.action() matches DeleteActionView::Save(left)
            &&& left.contains(record) <==> profiles.contains(record) && record.id != id
            &&& third.after(Ok(())) == DeleteProgressView::Finished(Ok(()))
        }),
{
    crate::registry::data_lies_where_it_is_said_to(app, local, id, Seq::empty());
    crate::registry::removal_takes_one_profile(profiles, id, record);
}

/// What is said when a browser cannot start for a profile.
pub open spec fn start_failure(message: Seq<char>, id: Seq<char>) -> Seq<char> {
    if message == "That profile no longer exists."@ {
        "Unknown profile id: "@ + id
    } else {
        message
    }
}

/// A browser that cannot start because its profile is unknown names the profile; any other reason is
/// told as it is.
pub proof fn unknown_profile_is_named(message: Seq<char>, id: Seq<char>)
    ensures
        start_failure("That profile no longer exists."@, id) == "Unknown profile id: "@ + id,
        message != "That profile no longer exists."@ ==> start_failure(message, id) == message,
{
}

/// What the registry holds once a profile is created behind the given ones.
pub open spec fn with_created(
    profiles: Seq<ProfileRecordView>,
    id: Seq<char>,
    name: Seq<char>,
    now: u64,
) -> Seq<ProfileRecordView> {
    profiles.push(record_of(id, name, profiles.len(), now))
}

/// A profile is created behind those that are there, which stay as they are, under its own
/// identifier, with its name without the white space around it, the next color and the time, and
/// unused.
pub proof fn profile_is_created_behind_the_others(
    profiles: Seq<ProfileRecordView>,
    id: Seq<char>,
    name: Seq<char>,
    now: u64,
)
    ensures
        ({
            let all = with_created(profiles, id, name, now);
            &&& all.len() == profiles.len() + 1
            &&& all.take(profiles.len() as int) == profiles
            &&& all.last().id == id
            &&& all.last().name == crate::text::trimmed(name)
            &&& all.last().color == crate::profile::colors()[(profiles.len() % 6) as int]
            &&& all.last().created_at == now && all.last().last_used_at is None
        }),
{
    crate::profile::profiles_get_the_colors_in_turn(profiles.len(), 0, 1);
    assert(with_created(profiles, id, name, now).take(profiles.len() as int) =~= profiles);
}

/// What is said when the lock of a profile cannot be taken.
pub open spec fn lock_failure_text(message: Seq<char>, name: Seq<char>) -> Seq<char> {
    message + ": "@ + name
}

/// A lock that cannot be taken is reported with the reason and the name of the profile.
pub proof fn lock_failure_names_the_profile(message: Seq<char>, name: Seq<char>)
    ensures
        lock_failure_text(message, name) == message + ": "@ + name,
        lock_failure_text(message, name).take(message.len() as int) == message,
{
    assert(lock_failure_text(message, name).take(message.len() as int) =~= message);
}

/// How the creation of a profile ends: with the profile, or with what is to be removed and said.
pub open spec fn creation_end(
    record: ProfileRecordView,
    directory: DataPathView,
    outcome: Result<(), Seq<char>>,
) -> Result<ProfileRecordView, (DataPathView, Seq<char>)> {
    match outcome {
        Ok(()) => Ok(record),
        Err(error) => Err((directory, error)),
    }
}

/// The view of how a creation ends.
pub open spec fn create_end_view(end: CreateEnd) -> Result<ProfileRecordView, (DataPathView, Seq<char>)> {
    match end {
        CreateEnd::Created(record) => Ok(record@),
        CreateEnd::Undo(directory, message) => Err((directory@, message@)),
    }
}

/// A profile is created once the registry was saved. Where it could not be, the new directory is to be
/// removed and the error is told.
pub proof fn unsaved_profile_is_undone(record: ProfileRecordView, directory: DataPathView, error: Seq<char>)
    ensures
        creation_end(record, directory, Ok(())) == Ok::<ProfileRecordView, (DataPathView, Seq<char>)>(record),
        creation_end(record, directory, Err(error)) == Err::<ProfileRecordView, (DataPathView, Seq<char>)>(
            (directory, error),
        ),
{
}

} // verus!
