//! The profile picker: what it lists, what it accepts and how it waits for a browser.

use crate::profile::{
    id_refusal, is_profile_id, record_views, ProfileId, ProfileRecord, ProfileRecordView, ProfileSummary,
};
use crate::registry::ProfileRegistry;
use crate::text::{trim, trimmed};
use vstd::prelude::*;

verus! {

/// What the picker knows: where profiles lie, and why old data could not be taken over, if it
/// could not.
pub struct PickerState {
    pub registry: ProfileRegistry,
    pub migration_error: Option<String>,
}

/// What is said instead of any change after a failed migration.
pub open spec fn migration_notice(error: Seq<char>) -> Seq<char> {
    "Your existing Folio data could not be migrated safely. No profile changes were made. "@ + error
}

impl PickerState {
    /// The registry, unless old data could not be taken over.
    pub fn registry(&self) -> (r: Result<&ProfileRegistry, String>)
        ensures
            match (r, self.migration_error) {
                (Ok(registry), None) => *registry == self.registry,
                (Err(message), Some(error)) => message@ == migration_notice(error@),
                _ => false,
            },
    {
        match &self.migration_error {
            Some(error) => {
                let mut message: String =
                    "Your existing Folio data could not be migrated safely. No profile changes were made. ".to_owned();
                message.append(error.as_str());
                Err(message)
            },
            None => Ok(&self.registry),
        }
    }
}

/// When a profile was last used, zero if never.
pub open spec fn last_use(record: ProfileRecordView) -> u64 {
    match record.last_used_at {
        Some(time) => time,
        None => 0,
    }
}

/// The profiles that were last used at `time`, in their order.
pub open spec fn used_at(profiles: Seq<ProfileRecordView>, time: u64) -> Seq<ProfileRecordView>
    decreases profiles.len(),
{
    if profiles.len() == 0 {
        Seq::empty()
    } else if last_use(profiles.last()) == time {
        used_at(profiles.drop_last(), time).push(profiles.last())
    } else {
        used_at(profiles.drop_last(), time)
    }
}

/// Whether the profiles stand in the order of their use, the last used first.
pub open spec fn last_used_first(profiles: Seq<ProfileRecordView>) -> bool {
    forall|i: int, j: int|
        0 <= i < j < profiles.len() ==> last_use(#[trigger] profiles[i]) >= last_use(#[trigger] profiles[j])
}

proof fn lemma_used_at_concat(a: Seq<ProfileRecordView>, b: Seq<ProfileRecordView>, time: u64)
    ensures
        used_at(a + b, time) == used_at(a, time) + used_at(b, time),
    decreases b.len(),
{
    if b.len() == 0 {
        assert(a + b =~= a);
        assert(used_at(a, time) + used_at(b, time) =~= used_at(a, time));
    } else {
        assert((a + b).drop_last() =~= a + b.drop_last());
        lemma_used_at_concat(a, b.drop_last(), time);
        assert(used_at(a + b, time) =~= used_at(a, time) + used_at(b, time));
    }
}

proof fn lemma_used_at_none(s: Seq<ProfileRecordView>, time: u64)
    requires
        forall|i: int| 0 <= i < s.len() ==> last_use(#[trigger] s[i]) != time,
    ensures
        used_at(s, time) == Seq::<ProfileRecordView>::empty(),
    decreases s.len(),
{
    if s.len() > 0 {
        assert(last_use(s[s.len() - 1]) != time);
        assert forall|i: int| 0 <= i < s.drop_last().len() implies last_use(#[trigger] s.drop_last()[i]) != time by {
            assert(s.drop_last()[i] == s[i]);
        }
        lemma_used_at_none(s.drop_last(), time);
    }
}

/// Putting a record before the first that was used earlier puts it behind those used at the same
/// time.
proof fn lemma_insert(sorted: Seq<ProfileRecordView>, record: ProfileRecordView, at: int, time: u64)
    requires
        0 <= at <= sorted.len(),
        forall|i: int| at <= i < sorted.len() ==> last_use(#[trigger] sorted[i]) < last_use(record),
    ensures
        used_at(sorted.insert(at, record), time) == used_at(sorted.push(record), time),
{
    let front = sorted.take(at);
    let back = sorted.skip(at);
    assert(sorted.insert(at, record) =~= front + seq![record] + back);
    assert(sorted.push(record) =~= front + back + seq![record]);
    lemma_used_at_concat(front + seq![record], back, time);
    lemma_used_at_concat(front, seq![record], time);
    lemma_used_at_concat(front + back, seq![record], time);
    lemma_used_at_concat(front, back, time);
    if last_use(record) == time {
        assert forall|i: int| 0 <= i < back.len() implies last_use(#[trigger] back[i]) != time by {
            assert(back[i] == sorted[at + i]);
        }
        lemma_used_at_none(back, time);
    } else {
        assert forall|i: int| 0 <= i < seq![record].len() implies last_use(#[trigger] seq![record][i]) != time by {}
        lemma_used_at_none(seq![record], time);
    }
    assert(used_at(sorted.insert(at, record), time) =~= used_at(sorted.push(record), time));
}

/// The profiles in the order of their last use, the latest first. Those last used at the same
/// time, or never, keep their order.
pub fn sort_by_last_use(profiles: &Vec<ProfileRecord>) -> (r: Vec<ProfileRecord>)
    ensures
        r@.len() == profiles@.len(),
        last_used_first(record_views(r@)),
        forall|time: u64| #[trigger]
            used_at(record_views(r@), time) == used_at(record_views(profiles@), time),
{
    let ghost views = record_views(profiles@);
    let mut sorted: Vec<ProfileRecord> = Vec::new();
    let mut i: usize = 0;
    assert(record_views(sorted@) =~= views.take(0));
    while i < profiles.len()
        invariant
            i <= profiles@.len(),
            views == record_views(profiles@),
            sorted@.len() == i,
            last_used_first(record_views(sorted@)),
            forall|time: u64| #[trigger]
                used_at(record_views(sorted@), time) == used_at(views.take(i as int), time),
        decreases profiles@.len() - i,
    {
        let record: ProfileRecord = profiles[i].clone();
        let time: u64 = match record.last_used_at {
            Some(value) => value,
            None => 0,
        };
        let ghost before = record_views(sorted@);
        let mut at: usize = 0;
        loop
            invariant
                at <= sorted@.len(),
                before == record_views(sorted@),
                last_used_first(before),
                time == last_use(record@),
                forall|j: int| 0 <= j < at ==> last_use(#[trigger] before[j]) >= time,
            ensures
                at <= sorted@.len(),
                forall|j: int| 0 <= j < at ==> last_use(#[trigger] before[j]) >= time,
                forall|j: int| at <= j < before.len() ==> last_use(#[trigger] before[j]) < time,
            decreases sorted@.len() - at,
        {
            if at == sorted.len() {
                break;
            }
            let present: u64 = match sorted[at].last_used_at {
                Some(value) => value,
                None => 0,
            };
            assert(present == last_use(before[at as int]));
            if present < time {
                break;
            }
            at = at + 1;
        }
        sorted.insert(at, record);
        proof {
            let after = record_views(sorted@);
            assert(after =~= before.insert(at as int, record@));
            assert(views[i as int] == record@);
            assert(views.take(i + 1).drop_last() =~= views.take(i as int));
            assert forall|a: int, b: int| 0 <= a < b < after.len() implies last_use(#[trigger] after[a]) >= last_use(
                #[trigger] after[b],
            ) by {
                let x = if a < at { before[a] } else if a == at { record@ } else { before[a - 1] };
                let y = if b < at { before[b] } else if b == at { record@ } else { before[b - 1] };
                assert(after[a] == x);
                assert(after[b] == y);
            }
            assert forall|t: u64| #[trigger] used_at(after, t) == used_at(views.take(i + 1), t) by {
                lemma_insert(before, record@, at as int, t);
                assert(before.push(record@).drop_last() =~= before);
                assert(used_at(before, t) == used_at(views.take(i as int), t));
            }
        }
        i = i + 1;
    }
    assert(views.take(i as int) =~= views);
    sorted
}

/// What the picker shows of the profiles, given which of them are open.
pub fn list_profiles(profiles: &Vec<ProfileRecord>, running: &Vec<bool>) -> (r: Vec<ProfileSummary>)
    requires
        profiles@.len() == running@.len(),
    ensures
        r@.len() == profiles@.len(),
        forall|i: int| 0 <= i < r@.len() ==> (#[trigger] r@[i]).shows(profiles@[i]@, running@[i]),
{
    let mut r: Vec<ProfileSummary> = Vec::new();
    let mut i: usize = 0;
    while i < profiles.len()
        invariant
            i <= profiles@.len(),
            profiles@.len() == running@.len(),
            r@.len() == i,
            forall|j: int| 0 <= j < i ==> (#[trigger] r@[j]).shows(profiles@[j]@, running@[j]),
        decreases profiles@.len() - i,
    {
        r.push(ProfileSummary::from(&profiles[i], running[i]));
        i = i + 1;
    }
    r
}

/// The name that a new profile is to get.
pub fn create_profile(state: &PickerState, name: &str) -> (r: Result<String, String>)
    ensures
        match r {
            Ok(shown) => {
                &&& state.migration_error is None
                &&& trimmed(name@).len() > 0
                &&& shown@ == trimmed(name@)
            },
            Err(message) => match state.migration_error {
                Some(error) => message@ == migration_notice(error@),
                None => trimmed(name@).len() == 0 && message@ == "Enter a name for the new profile."@,
            },
        },
        match r {
            Ok(shown) => accepted_name(crate::text::opt_text(state.migration_error), name@) == Ok::<
                Seq<char>,
                Seq<char>,
            >(shown@),
            Err(message) => accepted_name(crate::text::opt_text(state.migration_error), name@) == Err::<
                Seq<char>,
                Seq<char>,
            >(message@),
        },
{
    match state.registry() {
        Ok(_) => {
            let shown: String = trim(name);
            if shown.as_str().is_empty() {
                Err("Enter a name for the new profile.".to_owned())
            } else {
                Ok(shown)
            }
        },
        Err(message) => Err(message),
    }
}

/// The profile that is to be renamed and its new name.
pub fn rename_profile(state: &PickerState, id: &str, name: &str) -> (r: Result<(ProfileId, String), String>)
    ensures
        match r {
            Ok((profile, shown)) => {
                &&& state.migration_error is None
                &&& is_profile_id(id@) && profile@ == id@
                &&& trimmed(name@).len() > 0 && shown@ == trimmed(name@)
            },
            Err(message) => match state.migration_error {
                Some(error) => message@ == migration_notice(error@),
                None => if !is_profile_id(id@) {
                    message@ == id_refusal(id@)
                } else {
                    trimmed(name@).len() == 0 && message@ == "Enter a name for the profile."@
                },
            },
        },
        match r {
            Ok((profile, shown)) => accepted_rename(crate::text::opt_text(state.migration_error), id@, name@) == Ok::<
                (Seq<char>, Seq<char>),
                Seq<char>,
            >((profile@, shown@)),
            Err(message) => accepted_rename(crate::text::opt_text(state.migration_error), id@, name@) == Err::<
                (Seq<char>, Seq<char>),
                Seq<char>,
            >(message@),
        },
{
    match chosen_profile(state, id) {
        Ok(profile) => {
            let shown: String = trim(name);
            if shown.as_str().is_empty() {
                Err("Enter a name for the profile.".to_owned())
            } else {
                Ok((profile, shown))
            }
        },
        Err(message) => Err(message),
    }
}

/// The profile that is to be deleted or opened.
pub fn chosen_profile(state: &PickerState, id: &str) -> (r: Result<ProfileId, String>)
    ensures
        match r {
            Ok(profile) => state.migration_error is None && is_profile_id(id@) && profile@ == id@,
            Err(message) => match state.migration_error {
                Some(error) => message@ == migration_notice(error@),
                None => !is_profile_id(id@) && message@ == id_refusal(id@),
            },
        },
        match r {
            Ok(profile) => accepted_id(crate::text::opt_text(state.migration_error), id@) == Ok::<Seq<char>, Seq<char>>(
                profile@,
            ),
            Err(message) => accepted_id(crate::text::opt_text(state.migration_error), id@) == Err::<
                Seq<char>,
                Seq<char>,
            >(message@),
        },
{
    match state.registry() {
        Ok(_) => ProfileId::parse(id),
        Err(message) => Err(message),
    }
}

/// Lists that agree on the profiles used at each time hold the same profiles: sorting loses none
/// and adds none.
pub proof fn sorting_keeps_every_profile(
    profiles: Seq<ProfileRecordView>,
    sorted: Seq<ProfileRecordView>,
    record: ProfileRecordView,
)
    requires
        forall|time: u64| #[trigger] used_at(sorted, time) == used_at(profiles, time),
    ensures
        sorted.contains(record) <==> profiles.contains(record),
{
    lemma_used_at(profiles, record);
    lemma_used_at(sorted, record);
    assert(used_at(sorted, last_use(record)) == used_at(profiles, last_use(record)));
}

/// A profile is among those that were used when it was.
proof fn lemma_used_at(profiles: Seq<ProfileRecordView>, record: ProfileRecordView)
    ensures
        profiles.contains(record) <==> used_at(profiles, last_use(record)).contains(record),
    decreases profiles.len(),
{
    if profiles.len() > 0 {
        let before = profiles.drop_last();
        let time = last_use(record);
        let used = used_at(profiles, time);
        let earlier = used_at(before, time);
        lemma_used_at(before, record);
        if profiles.contains(record) {
            let k = choose|k: int| 0 <= k < profiles.len() && profiles[k] == record;
            if k < before.len() {
                assert(before[k] == record);
                let j = choose|j: int| 0 <= j < earlier.len() && earlier[j] == record;
                assert(used[j] == record);
            } else {
                assert(used[used.len() - 1] == record);
            }
        }
        if used.contains(record) {
            let j = choose|j: int| 0 <= j < used.len() && used[j] == record;
            if j < earlier.len() {
                assert(earlier[j] == record);
                let k = choose|k: int| 0 <= k < before.len() && before[k] == record;
                assert(profiles[k] == record);
            } else {
                assert(profiles[profiles.len() - 1] == record);
            }
        }
    }
}

/// How long the picker waits for a browser, in milliseconds.
pub const LAUNCH_TIMEOUT: u64 = 12_000;

/// What the picker does after a look at the browser that it has started.
#[derive(Debug)]
pub enum LaunchStep {
    /// The browser is ready: its signal is to be removed and the profile's use recorded.
    Ready,
    /// The browser is gone, or cannot be watched.
    Failed(String),
    /// The browser is to be stopped.
    Stop(String),
    Wait,
}

/// A look's result with its texts as sequences of characters.
pub enum LaunchStepView {
    Ready,
    Failed(Seq<char>),
    Stop(Seq<char>),
    Wait,
}

impl View for LaunchStep {
    type V = LaunchStepView;

    open spec fn view(&self) -> LaunchStepView {
        match self {
            LaunchStep::Ready => LaunchStepView::Ready,
            LaunchStep::Failed(message) => LaunchStepView::Failed(message@),
            LaunchStep::Stop(message) => LaunchStepView::Stop(message@),
            LaunchStep::Wait => LaunchStepView::Wait,
        }
    }
}

/// What follows from a look: whether the signal is there, how the browser ended if it has, and
/// how many milliseconds have passed.
pub open spec fn launch_step(
    ready: bool,
    exited: Result<Option<Seq<char>>, Seq<char>>,
    elapsed: u64,
) -> LaunchStepView {
    if ready {
        LaunchStepView::Ready
    } else {
        match exited {
            Err(error) => LaunchStepView::Failed(error),
            Ok(Some(status)) => LaunchStepView::Failed(
                "The profile browser exited before it was ready ("@ + status + ")."@,
            ),
            Ok(None) => if elapsed >= 12_000 {
                LaunchStepView::Stop("The profile browser did not become ready in time."@)
            } else {
                LaunchStepView::Wait
            },
        }
    }
}

/// The view of how a browser ended, if that could be found out.
pub open spec fn exited_view(exited: Result<Option<String>, String>) -> Result<Option<Seq<char>>, Seq<char>> {
    match exited {
        Ok(Some(status)) => Ok(Some(status@)),
        Ok(None) => Ok(None),
        Err(error) => Err(error@),
    }
}

/// What follows from a look at the browser that the picker has started.
pub fn watch_launch(ready: bool, exited: Result<Option<String>, String>, elapsed: u64) -> (r: LaunchStep)
    ensures
        r@ == launch_step(ready, exited_view(exited), elapsed),
{
    if ready {
        return LaunchStep::Ready;
    }
    match exited {
        Err(error) => LaunchStep::Failed(error),
        Ok(Some(status)) => {
            let mut message: String = "The profile browser exited before it was ready (".to_owned();
            message.append(status.as_str());
            message.append(").");
            LaunchStep::Failed(message)
        },
        Ok(None) => {
            if elapsed >= LAUNCH_TIMEOUT {
                LaunchStep::Stop("The profile browser did not become ready in time.".to_owned())
            } else {
                LaunchStep::Wait
            }
        },
    }
}

/// In a sorted list a profile that was used later stands before one that was used earlier, and one
/// that was never used behind every one that was used since the epoch.
pub proof fn later_use_stands_first(sorted: Seq<ProfileRecordView>, i: int, j: int)
    requires
        last_used_first(sorted),
        0 <= i < sorted.len() && 0 <= j < sorted.len(),
        sorted[i].last_used_at is Some,
        sorted[i].last_used_at->0 > 0,
        sorted[j].last_used_at is None || sorted[j].last_used_at->0 < sorted[i].last_used_at->0,
    ensures
        i < j,
{
}

/// Profiles that were used at the same time, or never, keep the order that they had.
pub proof fn equal_use_keeps_the_order(profiles: Seq<ProfileRecordView>, time: u64)
    requires
        time > 0,
        forall|i: int| 0 <= i < profiles.len() ==> (#[trigger] profiles[i]).last_used_at == Some(time),
    ensures
        used_at(profiles, time) == profiles,
    decreases profiles.len(),
{
    if profiles.len() > 0 {
        assert(profiles[profiles.len() - 1].last_used_at == Some(time));
        assert forall|i: int| 0 <= i < profiles.drop_last().len() implies (
        #[trigger] profiles.drop_last()[i]).last_used_at == Some(time) by {
            assert(profiles.drop_last()[i] == profiles[i]);
        }
        equal_use_keeps_the_order(profiles.drop_last(), time);
        assert(used_at(profiles, time) =~= profiles);
    }
}

/// The name that a new profile gets, or why none is created.
pub open spec fn accepted_name(migration_error: Option<Seq<char>>, name: Seq<char>) -> Result<Seq<char>, Seq<char>> {
    match migration_error {
        Some(error) => Err(migration_notice(error)),
        None => if trimmed(name).len() == 0 {
            Err("Enter a name for the new profile."@)
        } else {
            Ok(trimmed(name))
        },
    }
}

/// A name with anything in it is accepted without the white space around it, and a blank one is
/// refused. After a failed migration no name is accepted, and the error is told.
pub proof fn names_are_accepted_unless_blank(before: Seq<char>, name: Seq<char>, after: Seq<char>, error: Seq<char>)
    requires
        crate::text::blank(before) && crate::text::blank(after),
        name.len() > 0 ==> !crate::text::white_space(name[0]) && !crate::text::white_space(name.last()),
    ensures
        name.len() > 0 ==> accepted_name(None, before + name + after) == Ok::<Seq<char>, Seq<char>>(name),
        name.len() == 0 ==> accepted_name(None, before + name + after) == Err::<Seq<char>, Seq<char>>(
            "Enter a name for the new profile."@,
        ),
        accepted_name(Some(error), before + name + after) == Err::<Seq<char>, Seq<char>>(
            "Your existing Folio data could not be migrated safely. No profile changes were made. "@ + error,
        ),
{
    crate::text::trimming_takes_the_ends(before, name, after);
}

/// The picker waits while the browser neither is ready nor ended, for twelve seconds, and then stops
/// it. A ready browser is ready whatever else was found; one that ended before has failed, and so
/// has one that cannot be watched.
pub proof fn picker_waits_twelve_seconds(exited: Result<Option<Seq<char>>, Seq<char>>, status: Seq<char>, elapsed: u64)
    ensures
        launch_step(true, exited, elapsed) is Ready,
        launch_step(false, Ok(None), elapsed) is Wait <==> elapsed < 12_000,
        elapsed >= 12_000 ==> launch_step(false, Ok(None), elapsed) == LaunchStepView::Stop(
            "The profile browser did not become ready in time."@,
        ),
        launch_step(false, Ok(Some(status)), elapsed) == LaunchStepView::Failed(
            "The profile browser exited before it was ready ("@ + status + ")."@,
        ),
        launch_step(false, Err(status), elapsed) == LaunchStepView::Failed(status),
{
}

/// The profile that is chosen, or why none is.
pub open spec fn accepted_id(migration_error: Option<Seq<char>>, id: Seq<char>) -> Result<Seq<char>, Seq<char>> {
    match migration_error {
        Some(error) => Err(migration_notice(error)),
        None => if is_profile_id(id) {
            Ok(id)
        } else {
            Err(id_refusal(id))
        },
    }
}

/// The profile that is to be renamed and its new name, or why none is.
pub open spec fn accepted_rename(
    migration_error: Option<Seq<char>>,
    id: Seq<char>,
    name: Seq<char>,
) -> Result<(Seq<char>, Seq<char>), Seq<char>> {
    match accepted_id(migration_error, id) {
        Err(message) => Err(message),
        Ok(profile) => if trimmed(name).len() == 0 {
            Err("Enter a name for the profile."@)
        } else {
            Ok((profile, trimmed(name)))
        },
    }
}

/// A profile is chosen by its own identifier, and by no text that is none; it is renamed to a name
/// with anything in it, without the white space around it, and to no blank one. After a failed
/// migration no profile is chosen or renamed, and the error is told.
pub proof fn profiles_are_chosen_by_their_identifier(
    id: Seq<char>,
    before: Seq<char>,
    name: Seq<char>,
    after: Seq<char>,
    error: Seq<char>,
)
    requires
        crate::text::blank(before) && crate::text::blank(after),
        name.len() > 0 ==> !crate::text::white_space(name[0]) && !crate::text::white_space(name.last()),
    ensures
        is_profile_id(id) ==> {
            &&& accepted_id(None, id) == Ok::<Seq<char>, Seq<char>>(id)
            &&& name.len() > 0 ==> accepted_rename(None, id, before + name + after) == Ok::<
                (Seq<char>, Seq<char>),
                Seq<char>,
            >((id, name))
            &&& name.len() == 0 ==> accepted_rename(None, id, before + name + after) == Err::<
                (Seq<char>, Seq<char>),
                Seq<char>,
            >("Enter a name for the profile."@)
        },
        !is_profile_id(id) ==> {
            &&& accepted_id(None, id) == Err::<Seq<char>, Seq<char>>(id_refusal(id))
            &&& accepted_rename(None, id, name) == Err::<(Seq<char>, Seq<char>), Seq<char>>(id_refusal(id))
        },
        accepted_id(Some(error), id) == Err::<Seq<char>, Seq<char>>(
            "Your existing Folio data could not be migrated safely. No profile changes were made. "@ + error,
        ),
        accepted_rename(Some(error), id, name) is Err,
{
    crate::text::trimming_takes_the_ends(before, name, after);
}

} // verus!
