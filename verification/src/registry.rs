//! The shared registry of profiles: where its data lies and how it changes.

use crate::paths::{DataPath, DataPathView};
use crate::profile::{
    id_refusal, is_profile_id, record_of, record_views, ProfileId, ProfileRecord, ProfileRecordView,
};
use crate::text::{decimal, decimal_text, same_text, trim, trimmed};
use vstd::prelude::*;

verus! {

/// A profile as the registry's file holds it.
#[derive(Debug)]
pub struct StoredProfile {
    pub id: String,
    pub name: String,
    pub color: String,
    pub created_at: u64,
    pub last_used_at: Option<u64>,
}

impl View for StoredProfile {
    type V = ProfileRecordView;

    open spec fn view(&self) -> ProfileRecordView {
        ProfileRecordView {
            id: self.id@,
            name: self.name@,
            color: self.color@,
            created_at: self.created_at,
            last_used_at: self.last_used_at,
        }
    }
}

/// The views of stored profiles.
pub open spec fn stored_views(profiles: Seq<StoredProfile>) -> Seq<ProfileRecordView> {
    Seq::new(profiles.len(), |i: int| profiles[i]@)
}

/// The content of the registry's file.
#[derive(Debug)]
pub struct RegistryFile {
    pub version: u32,
    pub profiles: Vec<StoredProfile>,
}

/// Where the profiles' data lies.
pub struct ProfileRegistry {
    pub app_data_root: DataPath,
    pub local_data_root: DataPath,
}

/// The directory of a profile's databases and locks.
pub open spec fn profile_dir_of(app: DataPathView, id: Seq<char>) -> DataPathView {
    app.join("profiles"@).join(id)
}

/// The directory of a profile's WebView data.
pub open spec fn webview_dir_of(local: DataPathView, id: Seq<char>) -> DataPathView {
    local.join("profiles"@).join(id).join("webview"@)
}

impl ProfileRegistry {
    pub fn new(app_data_root: DataPath, local_data_root: DataPath) -> (r: ProfileRegistry)
        ensures
            r.app_data_root == app_data_root,
            r.local_data_root == local_data_root,
    {
        ProfileRegistry { app_data_root, local_data_root }
    }

    pub fn registry_path(&self) -> (r: DataPath)
        ensures
            r@ == self.app_data_root@.join("profiles.json"@),
            r@ == registry_path_of(self.app_data_root@),
    {
        self.app_data_root.join("profiles.json")
    }

    /// Where the registry is written before it replaces the old one.
    pub fn registry_temporary_path(&self) -> (r: DataPath)
        ensures
            r@ == self.app_data_root@.join("profiles.json.tmp"@),
            r@ == temporary_registry_of(self.app_data_root@),
    {
        self.app_data_root.join("profiles.json.tmp")
    }

    /// The file whose lock is held while the registry is edited.
    pub fn registry_lock_path(&self) -> (r: DataPath)
        ensures
            r@ == self.app_data_root@.join("profiles.json.lock"@),
            r@ == registry_lock_of(self.app_data_root@),
    {
        self.app_data_root.join("profiles.json.lock")
    }

    pub fn profile_dir(&self, id: &ProfileId) -> (r: DataPath)
        ensures
            r@ == profile_dir_of(self.app_data_root@, id@),
    {
        self.app_data_root.join("profiles").join(id.as_str())
    }

    pub fn webview_dir(&self, id: &ProfileId) -> (r: DataPath)
        ensures
            r@ == webview_dir_of(self.local_data_root@, id@),
    {
        self.local_data_root.join("profiles").join(id.as_str()).join("webview")
    }

    pub fn history_path(&self, id: &ProfileId) -> (r: DataPath)
        ensures
            r@ == profile_dir_of(self.app_data_root@, id@).join("history.sqlite3"@),
            r@ == history_path_of(self.app_data_root@, id@),
    {
        self.profile_dir(id).join("history.sqlite3")
    }

    pub fn downloads_path(&self, id: &ProfileId) -> (r: DataPath)
        ensures
            r@ == profile_dir_of(self.app_data_root@, id@).join("downloads.sqlite3"@),
            r@ == downloads_path_of(self.app_data_root@, id@),
    {
        self.profile_dir(id).join("downloads.sqlite3")
    }

    pub fn lock_path(&self, id: &ProfileId) -> (r: DataPath)
        ensures
            r@ == profile_dir_of(self.app_data_root@, id@).join("profile.lock"@),
            r@ == lock_path_of(self.app_data_root@, id@),
    {
        self.profile_dir(id).join("profile.lock")
    }

    pub fn launch_lock_path(&self, id: &ProfileId) -> (r: DataPath)
        ensures
            r@ == profile_dir_of(self.app_data_root@, id@).join("launch.lock"@),
            r@ == launch_lock_path_of(self.app_data_root@, id@),
    {
        self.profile_dir(id).join("launch.lock")
    }

    pub fn launch_ready_path(&self, id: &ProfileId, token: &ProfileId) -> (r: DataPath)
        ensures
            r@ == profile_dir_of(self.app_data_root@, id@).join("launch-"@ + token@ + ".ready"@),
            r@ == profile_file_of(self.app_data_root@, id@, ready_name(token@)),
    {
        let mut name: String = "launch-".to_owned();
        name.append(token.as_str());
        name.append(".ready");
        self.profile_dir(id).join(name.as_str())
    }

    pub fn launcher_dir(&self) -> (r: DataPath)
        ensures
            r@ == self.local_data_root@.join("launcher"@),
            r@ == launcher_dir_of(self.local_data_root@),
    {
        self.local_data_root.join("launcher")
    }
}

/// Whatever lies in the directory of one profile lies in that of no other, and so for the
/// directories of WebView data.
pub proof fn profiles_share_no_place(root: DataPathView, a: Seq<char>, b: Seq<char>, place: DataPathView)
    requires
        a != b,
    ensures
        place.within(profile_dir_of(root, a)) ==> !place.within(profile_dir_of(root, b)),
        place.within(webview_dir_of(root, a)) ==> !place.within(webview_dir_of(root, b)),
{
    let at = root.names.len() as int + 1;
    if place.within(profile_dir_of(root, a)) && place.within(profile_dir_of(root, b)) {
        assert(profile_dir_of(root, a).names[at] == a);
        assert(profile_dir_of(root, b).names[at] == b);
        assert(place.names.take(at + 1)[at] == a);
    }
    if place.within(webview_dir_of(root, a)) && place.within(webview_dir_of(root, b)) {
        assert(webview_dir_of(root, a).names[at] == a);
        assert(webview_dir_of(root, b).names[at] == b);
        assert(place.names.take(at + 2)[at] == a);
    }
}

/// The databases, the locks and the ready signals of a profile lie in its directory.
pub proof fn profile_files_lie_in_its_directory(app: DataPathView, id: Seq<char>, name: Seq<char>)
    ensures
        profile_dir_of(app, id).join(name).within(profile_dir_of(app, id)),
{
    let dir = profile_dir_of(app, id);
    assert(dir.join(name).names.take(dir.names.len() as int) =~= dir.names);
}

/// The place of the first profile with the given identifier.
pub open spec fn find_index(profiles: Seq<ProfileRecordView>, id: Seq<char>) -> Option<int>
    decreases profiles.len(),
{
    if profiles.len() == 0 {
        None
    } else if profiles[0].id == id {
        Some(0)
    } else {
        match find_index(profiles.skip(1), id) {
            Some(i) => Some(i + 1),
            None => None,
        }
    }
}

/// `find_index` gives the first of the profiles with the identifier, and none only if there is
/// none.
pub proof fn found_is_first(profiles: Seq<ProfileRecordView>, id: Seq<char>)
    ensures
        match find_index(profiles, id) {
            Some(i) => {
                &&& 0 <= i < profiles.len()
                &&& profiles[i].id == id
                &&& forall|j: int| 0 <= j < i ==> (#[trigger] profiles[j]).id != id
            },
            None => forall|j: int| 0 <= j < profiles.len() ==> (#[trigger] profiles[j]).id != id,
        },
    decreases profiles.len(),
{
    if profiles.len() > 0 && profiles[0].id != id {
        let rest = profiles.skip(1);
        found_is_first(rest, id);
        assert forall|j: int| 0 < j < profiles.len() implies #[trigger] profiles[j] == rest[j - 1] by {}
    }
}

/// The place of the first profile with the given identifier.
pub fn position(profiles: &Vec<ProfileRecord>, id: &ProfileId) -> (r: Option<usize>)
    ensures
        match r {
            Some(i) => find_index(record_views(profiles@), id@) == Some(i as int) && i < profiles@.len(),
            None => find_index(record_views(profiles@), id@) is None,
        },
{
    let ghost views = record_views(profiles@);
    let mut i: usize = 0;
    while i < profiles.len()
        invariant
            i <= profiles@.len(),
            views == record_views(profiles@),
            forall|j: int| 0 <= j < i ==> (#[trigger] views[j]).id != id@,
        decreases profiles@.len() - i,
    {
        if same_text(profiles[i].id.as_str(), id.as_str()) {
            proof {
                found_is_first(views, id@);
                assert(views[i as int].id == id@);
            }
            return Some(i);
        }
        assert(views[i as int].id != id@);
        i = i + 1;
    }
    proof {
        found_is_first(views, id@);
    }
    None
}

/// The profiles, if each has a valid identifier, or why the first that has none is refused.
pub open spec fn validated(profiles: Seq<ProfileRecordView>) -> Result<Seq<ProfileRecordView>, Seq<char>>
    decreases profiles.len(),
{
    if profiles.len() == 0 {
        Ok(profiles)
    } else {
        match validated(profiles.drop_last()) {
            Err(message) => Err(message),
            Ok(_) => if is_profile_id(profiles.last().id) {
                Ok(profiles)
            } else {
                Err(id_refusal(profiles.last().id))
            },
        }
    }
}

/// What the registry's file holds, as far as its version is known.
pub open spec fn loaded_profiles(file: Option<RegistryFile>) -> Result<Seq<ProfileRecordView>, Seq<char>> {
    match file {
        None => Ok(Seq::empty()),
        Some(content) => if content.version == 1 {
            validated(stored_views(content.profiles@))
        } else {
            Err("Unsupported profile registry version "@ + decimal(content.version as nat) + "."@)
        },
    }
}

/// The view of an optional record.
pub open spec fn record_view(o: Option<ProfileRecord>) -> Option<ProfileRecordView> {
    match o {
        Some(record) => Some(record@),
        None => None,
    }
}

/// The first profile with the given identifier.
pub open spec fn found_in(profiles: Seq<ProfileRecordView>, id: Seq<char>) -> Option<ProfileRecordView> {
    match find_index(profiles, id) {
        Some(i) => Some(profiles[i]),
        None => None,
    }
}

/// The profiles after the one with the identifier has got a new name.
pub open spec fn renamed(profiles: Seq<ProfileRecordView>, i: int, name: Seq<char>) -> Seq<ProfileRecordView> {
    profiles.update(i, ProfileRecordView { name: trimmed(name), ..profiles[i] })
}

/// The profiles after the one at place `i` was used at `now`.
pub open spec fn touched(profiles: Seq<ProfileRecordView>, i: int, now: u64) -> Seq<ProfileRecordView> {
    profiles.update(i, ProfileRecordView { last_used_at: Some(now), ..profiles[i] })
}

/// The profiles but for those with the given identifier.
pub open spec fn without(profiles: Seq<ProfileRecordView>, id: Seq<char>) -> Seq<ProfileRecordView>
    decreases profiles.len(),
{
    if profiles.len() == 0 {
        Seq::empty()
    } else if profiles.last().id == id {
        without(profiles.drop_last(), id)
    } else {
        without(profiles.drop_last(), id).push(profiles.last())
    }
}

/// The profiles, if each has a valid identifier.
fn validate(stored: &Vec<StoredProfile>) -> (r: Result<Vec<ProfileRecord>, String>)
    ensures
        match r {
            Ok(profiles) => validated(stored_views(stored@)) == Ok::<Seq<ProfileRecordView>, Seq<char>>(
                record_views(profiles@),
            ),
            Err(message) => validated(stored_views(stored@)) == Err::<Seq<ProfileRecordView>, Seq<char>>(message@),
        },
{
    let ghost views = stored_views(stored@);
    let mut profiles: Vec<ProfileRecord> = Vec::new();
    let mut i: usize = 0;
    assert(record_views(profiles@) =~= views.take(0));
    while i < stored.len()
        invariant
            i <= stored@.len(),
            views == stored_views(stored@),
            record_views(profiles@) == views.take(i as int),
            validated(views.take(i as int)) == Ok::<Seq<ProfileRecordView>, Seq<char>>(views.take(i as int)),
        decreases stored@.len() - i,
    {
        let record: &StoredProfile = &stored[i];
        let ghost before = profiles@;
        let ghost next = views.take(i + 1);
        assert(next.drop_last() =~= views.take(i as int));
        assert(next.last() == record@);
        match ProfileId::parse(record.id.as_str()) {
            Ok(id) => {
                profiles.push(
                    ProfileRecord {
                        id,
                        name: record.name.clone(),
                        color: record.color.clone(),
                        created_at: record.created_at,
                        last_used_at: record.last_used_at,
                    },
                );
                assert(record_views(profiles@) =~= record_views(before).push(record@));
                assert(next =~= views.take(i as int).push(record@));
            },
            Err(message) => {
                proof {
                    lemma_refused(views, i + 1, message@);
                }
                return Err(message);
            },
        }
        i = i + 1;
    }
    assert(views.take(i as int) =~= views);
    Ok(profiles)
}

/// What is refused stays refused, whatever follows it.
proof fn lemma_refused(profiles: Seq<ProfileRecordView>, n: int, message: Seq<char>)
    requires
        0 <= n <= profiles.len(),
        validated(profiles.take(n)) == Err::<Seq<ProfileRecordView>, Seq<char>>(message),
    ensures
        validated(profiles) == Err::<Seq<ProfileRecordView>, Seq<char>>(message),
    decreases profiles.len(),
{
    if n == profiles.len() {
        assert(profiles.take(n) =~= profiles);
    } else {
        assert(profiles.drop_last().take(n) =~= profiles.take(n));
        lemma_refused(profiles.drop_last(), n, message);
    }
}

impl ProfileRegistry {
    /// The profiles that the registry's file holds. No file holds none.
    pub fn load(&self, file: Option<RegistryFile>) -> (r: Result<Vec<ProfileRecord>, String>)
        ensures
            match r {
                Ok(profiles) => loaded_profiles(file) == Ok::<Seq<ProfileRecordView>, Seq<char>>(
                    record_views(profiles@),
                ),
                Err(message) => loaded_profiles(file) == Err::<Seq<ProfileRecordView>, Seq<char>>(message@),
            },
    {
        match file {
            None => {
                let none: Vec<ProfileRecord> = Vec::new();
                assert(record_views(none@) =~= Seq::empty());
                Ok(none)
            },
            Some(content) => {
                if content.version == 1 {
                    validate(&content.profiles)
                } else {
                    let mut message: String = "Unsupported profile registry version ".to_owned();
                    message.append(decimal_text(content.version as u64).as_str());
                    message.append(".");
                    Err(message)
                }
            },
        }
    }

    /// The content of the file that records the profiles.
    pub fn registry_file(&self, profiles: &Vec<ProfileRecord>) -> (r: RegistryFile)
        ensures
            r.version == 1,
            stored_views(r.profiles@) == record_views(profiles@),
    {
        let mut stored: Vec<StoredProfile> = Vec::new();
        let mut i: usize = 0;
        while i < profiles.len()
            invariant
                i <= profiles@.len(),
                stored@.len() == i,
                forall|j: int| 0 <= j < i ==> (#[trigger] stored@[j])@ == profiles@[j]@,
            decreases profiles@.len() - i,
        {
            let record: &ProfileRecord = &profiles[i];
            stored.push(
                StoredProfile {
                    id: record.id.as_str().to_owned(),
                    name: record.name.clone(),
                    color: record.color.clone(),
                    created_at: record.created_at,
                    last_used_at: record.last_used_at,
                },
            );
            i = i + 1;
        }
        assert(stored_views(stored@) =~= record_views(profiles@));
        RegistryFile { version: 1, profiles: stored }
    }

    pub fn find(&self, id: &ProfileId, file: Option<RegistryFile>) -> (r: Result<Option<ProfileRecord>, String>)
        ensures
            match r {
                Ok(found) => {
                    &&& loaded_profiles(file) matches Ok(profiles)
                    &&& record_view(found) == found_in(profiles, id@)
                },
                Err(message) => loaded_profiles(file) == Err::<Seq<ProfileRecordView>, Seq<char>>(message@),
            },
    {
        match self.load(file) {
            Ok(profiles) => match position(&profiles, id) {
                Some(i) => Ok(Some(profiles[i].clone())),
                None => Ok(None),
            },
            Err(message) => Err(message),
        }
    }

    /// Gives the profile a new name, white space at its ends aside.
    pub fn rename(&self, id: &ProfileId, name: &str, profiles: &mut Vec<ProfileRecord>) -> (r: Result<(), String>)
        ensures
            match (r, find_index(record_views(old(profiles)@), id@)) {
                (Ok(()), Some(i)) => record_views(final(profiles)@) == renamed(
                    record_views(old(profiles)@),
                    i,
                    name@,
                ),
                (Err(message), None) => {
                    &&& message@ == "That profile no longer exists."@
                    &&& final(profiles)@ == old(profiles)@
                },
                _ => false,
            },
    {
        match position(profiles, id) {
            Some(i) => {
                let ghost before = record_views(profiles@);
                let mut record: ProfileRecord = profiles[i].clone();
                record.name = trim(name);
                profiles.set(i, record);
                assert(record_views(profiles@) =~= renamed(before, i as int, name@));
                Ok(())
            },
            None => Err("That profile no longer exists.".to_owned()),
        }
    }

    /// Records that the profile was used at `now`.
    pub fn touch_last_used(&self, id: &ProfileId, now: u64, profiles: &mut Vec<ProfileRecord>) -> (r: Result<(), String>)
        ensures
            match (r, find_index(record_views(old(profiles)@), id@)) {
                (Ok(()), Some(i)) => record_views(final(profiles)@) == touched(
                    record_views(old(profiles)@),
                    i,
                    now,
                ),
                (Err(message), None) => {
                    &&& message@ == "That profile no longer exists."@
                    &&& final(profiles)@ == old(profiles)@
                },
                _ => false,
            },
    {
        match position(profiles, id) {
            Some(i) => {
                let ghost before = record_views(profiles@);
                let mut record: ProfileRecord = profiles[i].clone();
                record.last_used_at = Some(now);
                profiles.set(i, record);
                assert(record_views(profiles@) =~= touched(before, i as int, now));
                Ok(())
            },
            None => Err("That profile no longer exists.".to_owned()),
        }
    }
}

/// What is left after removing an identifier keeps its order and holds the identifier no more.
pub proof fn without_leaves_the_others(profiles: Seq<ProfileRecordView>, id: Seq<char>)
    ensures
        find_index(without(profiles, id), id) is None,
        without(profiles, id).len() <= profiles.len(),
        without(profiles, id).len() == profiles.len() <==> find_index(profiles, id) is None,
        find_index(profiles, id) is None ==> without(profiles, id) == profiles,
    decreases profiles.len(),
{
    found_is_first(profiles, id);
    found_is_first(without(profiles, id), id);
    if profiles.len() > 0 {
        let init = profiles.drop_last();
        without_leaves_the_others(init, id);
        found_is_first(init, id);
        found_is_first(without(init, id), id);
        assert forall|j: int| 0 <= j < init.len() implies #[trigger] profiles[j] == init[j] by {}
        if profiles.last().id == id {
            assert(profiles[profiles.len() - 1].id == id);
        } else {
            let kept = without(init, id).push(profiles.last());
            assert forall|j: int| 0 <= j < kept.len() implies (#[trigger] kept[j]).id != id by {
                if j < without(init, id).len() {
                    assert(kept[j] == without(init, id)[j]);
                }
            }
            if find_index(init, id) is Some {
                let i = find_index(init, id)->0;
                assert(profiles[i].id == id);
            } else {
                assert(kept =~= profiles);
            }
        }
    } else {
        assert(without(profiles, id) =~= profiles);
    }
}

/// Removing one profile leaves every other where it is found.
pub proof fn removing_keeps_the_others(profiles: Seq<ProfileRecordView>, id: Seq<char>, other: Seq<char>)
    requires
        id != other,
    ensures
        found_in(without(profiles, id), other) == found_in(profiles, other),
    decreases profiles.len(),
{
    if profiles.len() > 0 {
        let init = profiles.drop_last();
        removing_keeps_the_others(init, id, other);
        lemma_found_in_push(init, profiles.last(), other);
        assert(init.push(profiles.last()) =~= profiles);
        if profiles.last().id != id {
            lemma_found_in_push(without(init, id), profiles.last(), other);
        }
    } else {
        assert(without(profiles, id) =~= profiles);
    }
}

/// A profile put at the end is found unless an earlier one has the identifier.
proof fn lemma_found_in_push(profiles: Seq<ProfileRecordView>, last: ProfileRecordView, id: Seq<char>)
    ensures
        found_in(profiles.push(last), id) == (match found_in(profiles, id) {
            Some(record) => Some(record),
            None => if last.id == id {
                Some(last)
            } else {
                None
            },
        }),
{
    let all = profiles.push(last);
    found_is_first(profiles, id);
    found_is_first(all, id);
    match find_index(profiles, id) {
        Some(i) => {
            assert(all[i].id == id);
            let k = find_index(all, id)->0;
            if k < i {
                assert(profiles[k].id != id);
            }
            assert(k == i);
        },
        None => {
            assert(all[profiles.len() as int] == last);
            if find_index(all, id) is Some {
                let k = find_index(all, id)->0;
                if k < profiles.len() {
                    assert(all[k] == profiles[k]);
                }
            }
        },
    }
}

/// A profile that was just created under a new identifier is found, and creating it leaves every
/// other profile where it is found.
pub proof fn created_profile_is_found(
    profiles: Seq<ProfileRecordView>,
    id: Seq<char>,
    name: Seq<char>,
    now: u64,
    other: Seq<char>,
)
    requires
        find_index(profiles, id) is None,
        id != other,
    ensures
        found_in(profiles.push(record_of(id, name, profiles.len(), now)), id) == Some(
            record_of(id, name, profiles.len(), now),
        ),
        found_in(profiles.push(record_of(id, name, profiles.len(), now)), other) == found_in(profiles, other),
{
    let record = record_of(id, name, profiles.len(), now);
    lemma_found_in_push(profiles, record, id);
    lemma_found_in_push(profiles, record, other);
}

/// A renamed profile is found under its identifier with the new name and is otherwise unchanged,
/// and so is every other profile.
pub proof fn renamed_profile_is_found(
    profiles: Seq<ProfileRecordView>,
    id: Seq<char>,
    name: Seq<char>,
    other: Seq<char>,
)
    requires
        find_index(profiles, id) is Some,
        id != other,
    ensures
        ({
            let i = find_index(profiles, id)->0;
            let after = renamed(profiles, i, name);
            &&& found_in(after, id) == Some(ProfileRecordView { name: trimmed(name), ..profiles[i] })
            &&& found_in(after, other) == found_in(profiles, other)
        }),
{
    let i = find_index(profiles, id)->0;
    let after = renamed(profiles, i, name);
    found_is_first(profiles, id);
    lemma_same_identifiers(profiles, after, id);
    lemma_same_identifiers(profiles, after, other);
    found_is_first(profiles, other);
}

/// A profile that was used is found with the time of its use and is otherwise unchanged, and so
/// is every other profile.
pub proof fn touched_profile_is_found(profiles: Seq<ProfileRecordView>, id: Seq<char>, now: u64, other: Seq<char>)
    requires
        find_index(profiles, id) is Some,
        id != other,
    ensures
        ({
            let i = find_index(profiles, id)->0;
            let after = touched(profiles, i, now);
            &&& found_in(after, id) == Some(ProfileRecordView { last_used_at: Some(now), ..profiles[i] })
            &&& found_in(after, other) == found_in(profiles, other)
        }),
{
    let i = find_index(profiles, id)->0;
    let after = touched(profiles, i, now);
    found_is_first(profiles, id);
    lemma_same_identifiers(profiles, after, id);
    lemma_same_identifiers(profiles, after, other);
    found_is_first(profiles, other);
}

proof fn lemma_same_identifiers(a: Seq<ProfileRecordView>, b: Seq<ProfileRecordView>, id: Seq<char>)
    requires
        a.len() == b.len(),
        forall|i: int| 0 <= i < a.len() ==> (#[trigger] a[i]).id == b[i].id,
    ensures
        find_index(a, id) == find_index(b, id),
    decreases a.len(),
{
    if a.len() > 0 {
        assert(a[0].id == b[0].id);
        assert forall|i: int| 0 <= i < a.skip(1).len() implies (#[trigger] a.skip(1)[i]).id == b.skip(1)[i].id by {
            assert(a[i + 1].id == b[i + 1].id);
        }
        lemma_same_identifiers(a.skip(1), b.skip(1), id);
    }
}

/// What is written to the registry's file is what is read from it.
pub proof fn saved_registry_loads(file: RegistryFile, profiles: Seq<ProfileRecordView>)
    requires
        file.version == 1,
        stored_views(file.profiles@) == profiles,
        forall|i: int| 0 <= i < profiles.len() ==> is_profile_id((#[trigger] profiles[i]).id),
    ensures
        loaded_profiles(Some(file)) == Ok::<Seq<ProfileRecordView>, Seq<char>>(profiles),
{
    lemma_validated(profiles);
}

/// Every profile that is loaded has a valid identifier, so nothing else is ever part of a path.
pub proof fn loaded_identifiers_are_valid(file: RegistryFile, i: int)
    requires
        loaded_profiles(Some(file)) matches Ok(profiles) && 0 <= i < profiles.len(),
    ensures
        is_profile_id(loaded_profiles(Some(file))->Ok_0[i].id),
        loaded_profiles(Some(file))->Ok_0 == stored_views(file.profiles@),
{
    lemma_validated_ids(stored_views(file.profiles@));
}

/// Profiles that are taken are taken as they are, with valid identifiers.
proof fn lemma_validated_ids(profiles: Seq<ProfileRecordView>)
    ensures
        validated(profiles) matches Ok(taken) ==> {
            &&& taken == profiles
            &&& forall|i: int| 0 <= i < profiles.len() ==> is_profile_id((#[trigger] profiles[i]).id)
        },
    decreases profiles.len(),
{
    if profiles.len() > 0 {
        let before = profiles.drop_last();
        lemma_validated_ids(before);
        if validated(profiles) is Ok {
            assert forall|i: int| 0 <= i < profiles.len() implies is_profile_id((#[trigger] profiles[i]).id) by {
                if i < before.len() {
                    assert(before[i] == profiles[i]);
                }
            }
        }
    }
}

/// Profiles with valid identifiers are taken as they are.
proof fn lemma_validated(profiles: Seq<ProfileRecordView>)
    requires
        forall|i: int| 0 <= i < profiles.len() ==> is_profile_id((#[trigger] profiles[i]).id),
    ensures
        validated(profiles) == Ok::<Seq<ProfileRecordView>, Seq<char>>(profiles),
    decreases profiles.len(),
{
    if profiles.len() > 0 {
        let before = profiles.drop_last();
        assert(forall|i: int| 0 <= i < before.len() ==> #[trigger] before[i] == profiles[i]);
        lemma_validated(before);
        assert(is_profile_id(profiles[profiles.len() - 1].id));
    }
}

/// The place that the given names lead to from a root.
pub open spec fn below(root: DataPathView, names: Seq<Seq<char>>) -> DataPathView {
    DataPathView { base: root.base, names: root.names + names }
}

/// Where the registry is.
pub open spec fn registry_path_of(app: DataPathView) -> DataPathView {
    app.join("profiles.json"@)
}

/// The browsing ledger of a profile.
pub open spec fn history_path_of(app: DataPathView, id: Seq<char>) -> DataPathView {
    profile_file_of(app, id, "history.sqlite3"@)
}

/// The download ledger of a profile.
pub open spec fn downloads_path_of(app: DataPathView, id: Seq<char>) -> DataPathView {
    profile_file_of(app, id, "downloads.sqlite3"@)
}

/// The lock that is held while a profile is open.
pub open spec fn lock_path_of(app: DataPathView, id: Seq<char>) -> DataPathView {
    profile_file_of(app, id, "profile.lock"@)
}

/// The lock that is held while a profile's browser starts.
pub open spec fn launch_lock_path_of(app: DataPathView, id: Seq<char>) -> DataPathView {
    profile_file_of(app, id, "launch.lock"@)
}

/// Where the registry is written before it replaces the old one.
pub open spec fn temporary_registry_of(app: DataPathView) -> DataPathView {
    app.join("profiles.json.tmp"@)
}

/// The lock that is held while the registry is edited.
pub open spec fn registry_lock_of(app: DataPathView) -> DataPathView {
    app.join("profiles.json.lock"@)
}

/// The file of the given name in the directory of a profile.
pub open spec fn profile_file_of(app: DataPathView, id: Seq<char>, name: Seq<char>) -> DataPathView {
    profile_dir_of(app, id).join(name)
}

/// The picker's own WebView data.
pub open spec fn launcher_dir_of(local: DataPathView) -> DataPathView {
    local.join("launcher"@)
}

/// The data lies where it is documented to lie: the registry in the roaming directory, each
/// profile's databases and locks in a directory of its own below `profiles`, its WebView data below
/// `profiles` in the local directory, and the picker's beside them.
pub proof fn data_lies_where_it_is_said_to(app: DataPathView, local: DataPathView, id: Seq<char>, name: Seq<char>)
    ensures
        registry_path_of(app) == below(app, seq!["profiles.json"@]),
        profile_dir_of(app, id) == below(app, seq!["profiles"@, id]),
        profile_file_of(app, id, name) == below(app, seq!["profiles"@, id, name]),
        history_path_of(app, id) == below(app, seq!["profiles"@, id, "history.sqlite3"@]),
        downloads_path_of(app, id) == below(app, seq!["profiles"@, id, "downloads.sqlite3"@]),
        lock_path_of(app, id) == below(app, seq!["profiles"@, id, "profile.lock"@]),
        launch_lock_path_of(app, id) == below(app, seq!["profiles"@, id, "launch.lock"@]),
        temporary_registry_of(app) == below(app, seq!["profiles.json.tmp"@]),
        registry_lock_of(app) == below(app, seq!["profiles.json.lock"@]),
        webview_dir_of(local, id) == below(local, seq!["profiles"@, id, "webview"@]),
        launcher_dir_of(local) == below(local, seq!["launcher"@]),
{
    assert(registry_path_of(app).names =~= app.names + seq!["profiles.json"@]);
    assert(profile_dir_of(app, id).names =~= app.names + seq!["profiles"@, id]);
    assert forall|file: Seq<char>| #[trigger] profile_file_of(app, id, file) == below(app, seq!["profiles"@, id, file]) by {
        assert(profile_file_of(app, id, file).names =~= app.names + seq!["profiles"@, id, file]);
    }
    assert(temporary_registry_of(app).names =~= app.names + seq!["profiles.json.tmp"@]);
    assert(registry_lock_of(app).names =~= app.names + seq!["profiles.json.lock"@]);
    assert(webview_dir_of(local, id).names =~= local.names + seq!["profiles"@, id, "webview"@]);
    assert(launcher_dir_of(local).names =~= local.names + seq!["launcher"@]);
}

/// The name of the signal that a browser which was started with a token is ready.
pub open spec fn ready_name(token: Seq<char>) -> Seq<char> {
    "launch-"@ + token + ".ready"@
}

/// Two starts of one profile never take the signal of each other for their own.
pub proof fn ready_signals_differ(a: Seq<char>, b: Seq<char>)
    requires
        a != b,
    ensures
        ready_name(a) != ready_name(b),
{
    let start = "launch-"@.len() as int;
    let end = ".ready"@.len() as int;
    if ready_name(a) == ready_name(b) {
        assert(ready_name(a).subrange(start, ready_name(a).len() - end) =~= a);
        assert(ready_name(b).subrange(start, ready_name(b).len() - end) =~= b);
    }
}

/// A registry without a file is empty, and one of another version than the first is refused with
/// that version. A profile whose identifier is none has the whole registry refused, for the first
/// such profile.
pub proof fn registry_is_read_or_refused(file: RegistryFile, at: int)
    ensures
        loaded_profiles(None) == Ok::<Seq<ProfileRecordView>, Seq<char>>(Seq::empty()),
        file.version != 1 ==> loaded_profiles(Some(file)) == Err::<Seq<ProfileRecordView>, Seq<char>>(
            "Unsupported profile registry version "@ + decimal(file.version as nat) + "."@,
        ),
        file.version == 1 && 0 <= at < file.profiles@.len() && !is_profile_id(file.profiles@[at].id@) && (forall|i: int|
            0 <= i < at ==> is_profile_id((#[trigger] file.profiles@[i]).id@)) ==> loaded_profiles(Some(file)) == Err::<
            Seq<ProfileRecordView>,
            Seq<char>,
        >(id_refusal(file.profiles@[at].id@)),
{
    let views = stored_views(file.profiles@);
    if file.version == 1 && 0 <= at < file.profiles@.len() && !is_profile_id(file.profiles@[at].id@) && (forall|i: int|
        0 <= i < at ==> is_profile_id((#[trigger] file.profiles@[i]).id@)) {
        let before = views.take(at);
        assert forall|i: int| 0 <= i < before.len() implies is_profile_id((#[trigger] before[i]).id) by {
            assert(before[i].id == file.profiles@[i].id@);
        }
        lemma_validated(before);
        let upto = views.take(at + 1);
        assert(upto.drop_last() =~= before);
        assert(upto.last().id == file.profiles@[at].id@);
        lemma_refused(views, at + 1, id_refusal(file.profiles@[at].id@));
    }
}

/// What remains once a profile is removed is exactly the other profiles, in their order: nothing
/// else is lost or added.
pub proof fn removal_takes_one_profile(profiles: Seq<ProfileRecordView>, id: Seq<char>, record: ProfileRecordView)
    ensures
        without(profiles, id).contains(record) <==> profiles.contains(record) && record.id != id,
        without(profiles.push(record), id) == if record.id == id {
            without(profiles, id)
        } else {
            without(profiles, id).push(record)
        },
    decreases profiles.len(),
{
    assert(profiles.push(record).drop_last() =~= profiles);
    if profiles.len() > 0 {
        let before = profiles.drop_last();
        let last = profiles.last();
        let left = without(before, id);
        removal_takes_one_profile(before, id, record);
        if profiles.contains(record) {
            let k = choose|k: int| 0 <= k < profiles.len() && profiles[k] == record;
            if k < before.len() {
                assert(before[k] == record);
            }
        }
        if before.contains(record) {
            let k = choose|k: int| 0 <= k < before.len() && before[k] == record;
            assert(profiles[k] == record);
        }
        assert(profiles[profiles.len() - 1] == last);
        if last.id != id {
            let all = left.push(last);
            assert(all[all.len() - 1] == last);
            if left.contains(record) {
                let k = choose|k: int| 0 <= k < left.len() && left[k] == record;
                assert(all[k] == record);
            }
            if all.contains(record) {
                let k = choose|k: int| 0 <= k < all.len() && all[k] == record;
                if k < left.len() {
                    assert(left[k] == record);
                }
            }
        }
    }
}

} // verus!
