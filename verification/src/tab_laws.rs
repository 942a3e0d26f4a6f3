//! What holds of the open tabs, whatever is done to them.

use crate::address::AddressView;
use crate::tabs::{
    activated, active_place, cycled_place, is_open, label_of, navigated, next_active, others, place, place_is_first,
    removed, reserved, rolled_back, shown_tabs, sign, smaller, title_of_address, titled, with_icon, TabView, TabsView,
};
use crate::text::{decimal, decimal_is_injective};
use vstd::prelude::*;

verus! {

/// Whether tabs have their own labels and different IDs below the next one. The last of all IDs is
/// the exception: once it is reached, it is given to every new tab.
pub open spec fn sound(tabs: Seq<TabView>, next_id: u64) -> bool {
    &&& forall|i: int| 0 <= i < tabs.len() ==> (#[trigger] tabs[i]).label == label_of(tabs[i].id)
    &&& forall|i: int| 0 <= i < tabs.len() ==> (#[trigger] tabs[i]).id < next_id || tabs[i].id == u64::MAX
    &&& forall|i: int, j: int|
        0 <= i < j < tabs.len() ==> (#[trigger] tabs[i]).id != (#[trigger] tabs[j]).id || tabs[i].id == u64::MAX
}

/// Whether the tabs are sound and the one at the front is open.
pub open spec fn consistent(state: TabsView) -> bool {
    &&& sound(state.tabs, state.next_id)
    &&& state.active_id matches Some(id) ==> is_open(state.tabs, id)
}

/// A tab is open exactly if it is among the tabs.
proof fn lemma_open(tabs: Seq<TabView>, id: u64)
    ensures
        is_open(tabs, id) <==> exists|i: int| 0 <= i < tabs.len() && (#[trigger] tabs[i]).id == id,
{
    place_is_first(tabs, id);
    if is_open(tabs, id) {
        assert(tabs[place(tabs, id) as int].id == id);
    }
}

/// Every tab that is left over is one of the tabs and has another ID, and every such tab is left.
proof fn lemma_others(tabs: Seq<TabView>, id: u64)
    ensures
        others(tabs, id).len() <= tabs.len(),
        forall|i: int|
            0 <= i < others(tabs, id).len() ==> tabs.contains(#[trigger] others(tabs, id)[i]) && others(
                tabs,
                id,
            )[i].id != id,
        forall|i: int|
            0 <= i < tabs.len() && (#[trigger] tabs[i]).id != id ==> others(tabs, id).contains(tabs[i]),
    decreases tabs.len(),
{
    if tabs.len() > 0 {
        let before = tabs.drop_last();
        let rest = others(before, id);
        let left = others(tabs, id);
        lemma_others(before, id);
        assert forall|i: int| 0 <= i < left.len() implies tabs.contains(#[trigger] left[i]) && left[i].id != id by {
            if i < rest.len() {
                assert(before.contains(rest[i]));
                let k = choose|k: int| 0 <= k < before.len() && before[k] == rest[i];
                assert(tabs[k] == left[i]);
            } else {
                assert(tabs[tabs.len() - 1] == left[i]);
            }
        }
        assert forall|i: int| 0 <= i < tabs.len() && (#[trigger] tabs[i]).id != id implies left.contains(tabs[i]) by {
            if i < before.len() {
                assert(before[i] == tabs[i]);
                assert(rest.contains(before[i]));
                let k = choose|k: int| 0 <= k < rest.len() && rest[k] == before[i];
                assert(left[k] == tabs[i]);
            } else {
                assert(left[left.len() - 1] == tabs[i]);
            }
        }
    }
}

/// Tabs that are left over stay sound.
proof fn lemma_others_sound(tabs: Seq<TabView>, next_id: u64, id: u64)
    requires
        sound(tabs, next_id),
    ensures
        sound(others(tabs, id), next_id),
    decreases tabs.len(),
{
    if tabs.len() > 0 {
        let before = tabs.drop_last();
        let rest = others(before, id);
        let left = others(tabs, id);
        assert(sound(before, next_id)) by {
            assert(forall|i: int| 0 <= i < before.len() ==> #[trigger] before[i] == tabs[i]);
        }
        lemma_others_sound(before, next_id, id);
        lemma_others(before, id);
        if tabs.last().id != id {
            assert forall|i: int, j: int| 0 <= i < j < left.len() implies (#[trigger] left[i]).id != (
            #[trigger] left[j]).id || left[i].id == u64::MAX by {
                if j == left.len() - 1 {
                    assert(before.contains(rest[i]));
                    let k = choose|k: int| 0 <= k < before.len() && before[k] == rest[i];
                    assert(tabs[k] == left[i]);
                    assert(tabs[tabs.len() - 1] == left[j]);
                } else {
                    assert(left[i] == rest[i] && left[j] == rest[j]);
                }
            }
            assert forall|i: int| 0 <= i < left.len() implies (#[trigger] left[i]).label == label_of(left[i].id) && (
            left[i].id < next_id || left[i].id == u64::MAX) by {
                if i < rest.len() {
                    assert(left[i] == rest[i]);
                } else {
                    assert(tabs[tabs.len() - 1] == left[i]);
                }
            }
        }
    }
}

/// Tabs without one of them stay sound, and those that were not closed are still open.
proof fn lemma_removed(tabs: Seq<TabView>, next_id: u64, index: int)
    requires
        0 <= index < tabs.len(),
    ensures
        sound(tabs, next_id) ==> sound(tabs.remove(index), next_id),
        forall|k: u64| k != tabs[index].id ==> (#[trigger] is_open(tabs.remove(index), k) <==> is_open(tabs, k)),
{
    let left = tabs.remove(index);
    assert(forall|i: int| 0 <= i < left.len() ==> #[trigger] left[i] == tabs[if i < index { i } else { i + 1 }]);
    assert forall|k: u64| k != tabs[index].id implies (#[trigger] is_open(left, k) <==> is_open(tabs, k)) by {
        lemma_open(left, k);
        lemma_open(tabs, k);
        if is_open(tabs, k) {
            let i = choose|i: int| 0 <= i < tabs.len() && (#[trigger] tabs[i]).id == k;
            if i < index {
                assert(left[i].id == k);
            } else {
                assert(left[i - 1].id == k);
            }
        }
        if is_open(left, k) {
            let i = choose|i: int| 0 <= i < left.len() && (#[trigger] left[i]).id == k;
            assert(tabs[if i < index { i } else { i + 1 }].id == k);
        }
    }
}

/// A change of one tab that keeps its ID and its label keeps the tabs consistent.
proof fn lemma_changed(state: TabsView, id: u64, tab: TabView)
    requires
        consistent(state),
        is_open(state.tabs, id),
        tab.id == state.tabs[place(state.tabs, id) as int].id,
        tab.label == state.tabs[place(state.tabs, id) as int].label,
    ensures
        consistent(TabsView { tabs: state.tabs.update(place(state.tabs, id) as int, tab), ..state }),
{
    let after = state.tabs.update(place(state.tabs, id) as int, tab);
    assert(forall|i: int| 0 <= i < after.len() ==> (#[trigger] after[i]).id == state.tabs[i].id && after[i].label
        == state.tabs[i].label);
    match state.active_id {
        Some(front) => {
            lemma_open(state.tabs, front);
            lemma_open(after, front);
            let i = choose|i: int| 0 <= i < state.tabs.len() && (#[trigger] state.tabs[i]).id == front;
            assert(after[i].id == front);
        },
        None => {},
    }
}

/// A window without tabs is consistent.
pub proof fn empty_window_is_consistent(profile_name: Seq<char>)
    ensures
        consistent(TabsView { next_id: 1, active_id: None, tabs: Seq::empty(), profile_name }),
{
}

/// Whatever is done to consistent tabs leaves them consistent.
pub proof fn tabs_stay_consistent(
    state: TabsView,
    id: u64,
    url: Seq<char>,
    loading: bool,
    title: Seq<char>,
    favicon: Option<Seq<char>>,
)
    requires
        consistent(state),
    ensures
        consistent(reserved(state)),
        consistent(rolled_back(state, id)),
        consistent(activated(state, id)),
        consistent(removed(state, id)),
        consistent(navigated(state, id, url, loading, title)),
        consistent(titled(state, id, title)),
        consistent(with_icon(state, id, favicon)),
{
    let opened = reserved(state).tabs;
    assert(forall|i: int| 0 <= i < state.tabs.len() ==> #[trigger] opened[i] == state.tabs[i]);
    match state.active_id {
        Some(front) => {
            lemma_open(state.tabs, front);
            lemma_open(opened, front);
            let i = choose|i: int| 0 <= i < state.tabs.len() && (#[trigger] state.tabs[i]).id == front;
            assert(opened[i].id == front);
            lemma_others(state.tabs, id);
            lemma_open(others(state.tabs, id), front);
            if front != id {
                assert(others(state.tabs, id).contains(state.tabs[i]));
                let k = choose|k: int|
                    0 <= k < others(state.tabs, id).len() && others(state.tabs, id)[k] == state.tabs[i];
                assert(others(state.tabs, id)[k].id == front);
            }
        },
        None => {},
    }
    lemma_others_sound(state.tabs, state.next_id, id);
    place_is_first(state.tabs, id);
    if is_open(state.tabs, id) {
        let index = place(state.tabs, id) as int;
        let left = state.tabs.remove(index);
        lemma_removed(state.tabs, state.next_id, index);
        match next_active(state, id) {
            Some(front) => {
                lemma_open(left, front);
                if state.active_id == Some(id) {
                    assert(left[smaller(index, left.len() - 1)].id == front);
                } else {
                    assert(front != id);
                }
            },
            None => {},
        }
        let tab = state.tabs[index];
        lemma_changed(state, id, crate::tabs::navigated_tab(tab, url, loading, title));
        lemma_changed(state, id, TabView { title: crate::text::trimmed(title), ..tab });
        lemma_changed(state, id, TabView { favicon, ..tab });
    }
}

/// A tab whose opening fails leaves no trace but its used ID: taking it back and returning to the
/// tab that was at the front gives the tabs as they were.
pub proof fn failed_opening_leaves_no_trace(state: TabsView)
    requires
        consistent(state),
        state.next_id < u64::MAX,
    ensures
        ({
            let id = state.next_id;
            let next = reserved(state).next_id;
            &&& rolled_back(reserved(state), id) == (TabsView { next_id: next, ..state })
            &&& state.active_id matches Some(front) ==> activated(
                rolled_back(activated(reserved(state), id), id),
                front,
            ) == (TabsView { next_id: next, ..state })
        }),
{
    let id = state.next_id;
    let opened = reserved(state).tabs;
    assert(opened.drop_last() =~= state.tabs);
    lemma_keeps_all(state.tabs, id);
    match state.active_id {
        Some(front) => {
            lemma_open(state.tabs, front);
        },
        None => {},
    }
    lemma_open(opened, id);
    assert(opened[opened.len() - 1].id == id);
}

/// Nothing is dropped where no tab has the ID.
proof fn lemma_keeps_all(tabs: Seq<TabView>, id: u64)
    requires
        forall|i: int| 0 <= i < tabs.len() ==> (#[trigger] tabs[i]).id != id,
    ensures
        others(tabs, id) == tabs,
    decreases tabs.len(),
{
    if tabs.len() > 0 {
        let before = tabs.drop_last();
        assert(forall|i: int| 0 <= i < before.len() ==> #[trigger] before[i] == tabs[i]);
        lemma_keeps_all(before, id);
        assert(tabs[tabs.len() - 1].id != id);
        assert(others(tabs, id) =~= tabs);
    }
}

/// Two tabs never share a web view, unless both have the last of all IDs.
pub proof fn tabs_share_no_web_view(state: TabsView, i: int, j: int)
    requires
        consistent(state),
        0 <= i < j < state.tabs.len(),
        state.tabs[i].id != u64::MAX,
    ensures
        state.tabs[i].label != state.tabs[j].label,
{
    let a = state.tabs[i].id;
    let b = state.tabs[j].id;
    if label_of(a) == label_of(b) {
        reveal_strlit("content-");
        assert(label_of(a).skip(8) =~= decimal(a as nat));
        assert(label_of(b).skip(8) =~= decimal(b as nat));
        decimal_is_injective(a as nat, b as nat);
    }
}

/// Closing a tab leaves all others open and in their order. The front stays where it is unless it
/// was closed; then it goes to a tab that is open, and to none only where none is left.
pub proof fn closing_keeps_the_other_tabs(state: TabsView, id: u64)
    requires
        consistent(state),
        is_open(state.tabs, id),
    ensures
        removed(state, id).tabs == state.tabs.remove(place(state.tabs, id) as int),
        forall|k: u64| k != id ==> (#[trigger] is_open(removed(state, id).tabs, k) <==> is_open(state.tabs, k)),
        removed(state, id).active_id matches Some(front) ==> is_open(removed(state, id).tabs, front),
        state.active_id is Some && state.active_id != Some(id) ==> removed(state, id).active_id == state.active_id,
        state.active_id is Some ==> (removed(state, id).active_id is None <==> removed(state, id).tabs.len() == 0),
{
    tabs_stay_consistent(state, id, Seq::empty(), false, Seq::empty(), None);
    place_is_first(state.tabs, id);
    lemma_removed(state.tabs, state.next_id, place(state.tabs, id) as int);
    match state.active_id {
        Some(front) => {
            lemma_open(removed(state, id).tabs, front);
        },
        None => {},
    }
}

/// A step forward and a step back, in either order, lead to the tab at the front again.
pub proof fn stepping_back_returns(state: TabsView, there: i32, back: i32)
    requires
        state.active_id matches Some(front) && is_open(state.tabs, front),
        forall|i: int, j: int|
            0 <= i < j < state.tabs.len() ==> (#[trigger] state.tabs[i]).id != (#[trigger] state.tabs[j]).id,
        sign(there) == -sign(back),
    ensures
        ({
            let target = state.tabs[cycled_place(state, there)].id;
            let moved = activated(state, target);
            Some(moved.tabs[cycled_place(moved, back)].id) == state.active_id
        }),
{
    let front = state.active_id->0;
    let len = state.tabs.len() as int;
    let from = active_place(state);
    let to = cycled_place(state, there);
    place_is_first(state.tabs, front);
    vstd::arithmetic::div_mod::lemma_mod_bound(from + sign(there), len);
    let target = state.tabs[to].id;
    let moved = activated(state, target);
    lemma_open(state.tabs, target);
    place_is_first(state.tabs, target);
    assert(place(state.tabs, target) == to) by {
        let p = place(state.tabs, target) as int;
        if p != to {
            if p < to {
                assert(state.tabs[p].id != state.tabs[to].id);
            } else {
                assert(state.tabs[to].id != target);
            }
        }
    }
    assert(moved.active_id == Some(target));
    assert(active_place(moved) == to);
    vstd::arithmetic::div_mod::lemma_add_mod_noop(from + sign(there), sign(back), len);
    vstd::arithmetic::div_mod::lemma_add_mod_noop(to, sign(back), len);
    vstd::arithmetic::div_mod::lemma_mod_twice(from + sign(there), len);
    assert((to + sign(back)) % len == (from + sign(there) + sign(back)) % len);
    vstd::arithmetic::div_mod::lemma_small_mod(from as nat, len as nat);
}

/// What happens to the page in one tab leaves the other tabs as they are, and what happens after
/// the tab has been closed changes nothing.
pub proof fn page_event_touches_one_tab(
    state: TabsView,
    id: u64,
    url: Seq<char>,
    loading: bool,
    title: Seq<char>,
    favicon: Option<Seq<char>>,
    after: TabsView,
)
    requires
        ({
            ||| after == navigated(state, id, url, loading, title)
            ||| after == titled(state, id, title)
            ||| after == with_icon(state, id, favicon)
        }),
    ensures
        !is_open(state.tabs, id) ==> after == state,
        after.tabs.len() == state.tabs.len(),
        after.active_id == state.active_id && after.next_id == state.next_id,
        forall|i: int|
            0 <= i < state.tabs.len() && i != place(state.tabs, id) ==> #[trigger] after.tabs[i] == state.tabs[i],
        forall|i: int|
            0 <= i < state.tabs.len() ==> (#[trigger] after.tabs[i]).id == state.tabs[i].id && after.tabs[i].label
                == state.tabs[i].label,
{
}

/// When the tab at the front is closed, the front goes to the tab that was opened next after it, and
/// to the one opened just before it where there is no later one.
pub proof fn closing_the_front_goes_to_a_neighbour(state: TabsView, at: int)
    requires
        0 <= at < state.tabs.len(),
        forall|i: int, j: int|
            0 <= i < j < state.tabs.len() ==> (#[trigger] state.tabs[i]).id != (#[trigger] state.tabs[j]).id,
        state.active_id == Some(state.tabs[at].id),
    ensures
        ({
            let after = removed(state, state.tabs[at].id);
            &&& after.tabs == state.tabs.take(at) + state.tabs.skip(at + 1)
            &&& at + 1 < state.tabs.len() ==> after.active_id == Some(state.tabs[at + 1].id)
            &&& at + 1 == state.tabs.len() && at > 0 ==> after.active_id == Some(state.tabs[at - 1].id)
            &&& state.tabs.len() == 1 ==> after.active_id is None
            &&& after.next_id == state.next_id && after.profile_name == state.profile_name
        }),
{
    let id = state.tabs[at].id;
    lemma_only_place(state.tabs, at);
    let left = state.tabs.remove(at);
    assert(left =~= state.tabs.take(at) + state.tabs.skip(at + 1));
}

/// Where the IDs differ, a tab is found at its own place.
proof fn lemma_only_place(tabs: Seq<TabView>, at: int)
    requires
        0 <= at < tabs.len(),
        forall|i: int, j: int| 0 <= i < j < tabs.len() ==> (#[trigger] tabs[i]).id != (#[trigger] tabs[j]).id,
    ensures
        place(tabs, tabs[at].id) == at,
        is_open(tabs, tabs[at].id),
{
    let id = tabs[at].id;
    place_is_first(tabs, id);
    let p = place(tabs, id) as int;
    if p < at {
        assert(tabs[p].id != tabs[at].id);
    } else if p > at {
        assert(tabs[at].id != id);
    }
}

/// A step forward leads to the tab that was opened next, and from the last to the first; a step back
/// leads to the tab opened before, and from the first to the last. No step leads nowhere else.
pub proof fn steps_lead_to_the_neighbours(state: TabsView, at: int, direction: i32)
    requires
        0 <= at < state.tabs.len(),
        forall|i: int, j: int|
            0 <= i < j < state.tabs.len() ==> (#[trigger] state.tabs[i]).id != (#[trigger] state.tabs[j]).id,
        state.active_id == Some(state.tabs[at].id),
    ensures
        direction > 0 ==> cycled_place(state, direction) == if at + 1 < state.tabs.len() {
            at + 1
        } else {
            0
        },
        direction < 0 ==> cycled_place(state, direction) == if at > 0 {
            at - 1
        } else {
            state.tabs.len() - 1
        },
        direction == 0 ==> cycled_place(state, direction) == at,
{
    lemma_only_place(state.tabs, at);
    crate::tabs::lemma_wrap(at, sign(direction), state.tabs.len() as int);
}

/// A new tab comes behind the others with an ID that was not given before, a web view of its own, no
/// page and no icon. The front and the other tabs stay as they were.
pub proof fn new_tab_comes_last_and_blank(state: TabsView)
    requires
        state.next_id < u64::MAX,
    ensures
        ({
            let after = reserved(state);
            let tab = after.tabs.last();
            &&& after.tabs.drop_last() == state.tabs
            &&& after.next_id == state.next_id + 1
            &&& tab.id == state.next_id
            &&& tab.label == "content-"@ + decimal(state.next_id as nat)
            &&& tab.title == "New Tab"@
            &&& tab.url == "about:blank"@
            &&& tab.favicon is None
            &&& !tab.loading
            &&& after.active_id == state.active_id && after.profile_name == state.profile_name
        }),
{
    assert(reserved(state).tabs.drop_last() =~= state.tabs);
}

/// Bringing a tab to the front changes nothing but which tab that is, and a tab that is not open
/// cannot come there.
pub proof fn front_is_all_that_changes(state: TabsView, id: u64)
    ensures
        activated(state, id).tabs == state.tabs && activated(state, id).next_id == state.next_id
            && activated(state, id).profile_name == state.profile_name,
        (exists|i: int| 0 <= i < state.tabs.len() && (#[trigger] state.tabs[i]).id == id) ==> activated(
            state,
            id,
        ).active_id == Some(id),
        (forall|i: int| 0 <= i < state.tabs.len() ==> (#[trigger] state.tabs[i]).id != id) ==> activated(
            state,
            id,
        ).active_id == state.active_id,
{
    lemma_open(state.tabs, id);
}

/// A tab that goes to another address shows that address and whether it loads, under the title that
/// comes with the address and without the icon of the page that it leaves. At the same address, and
/// at the blank page, title and icon stay.
pub proof fn new_address_drops_title_and_icon(
    state: TabsView,
    at: int,
    url: Seq<char>,
    loading: bool,
    title: Seq<char>,
)
    requires
        0 <= at < state.tabs.len(),
        forall|i: int, j: int|
            0 <= i < j < state.tabs.len() ==> (#[trigger] state.tabs[i]).id != (#[trigger] state.tabs[j]).id,
    ensures
        ({
            let before = state.tabs[at];
            let after = navigated(state, before.id, url, loading, title).tabs[at];
            &&& after.url == url && after.loading == loading
            &&& after.id == before.id && after.label == before.label
            &&& before.url != url && url != "about:blank"@ ==> after.title == title && after.favicon is None
            &&& before.url == url || url == "about:blank"@ ==> after.title == before.title && after.favicon
                == before.favicon
        }),
{
    lemma_only_place(state.tabs, at);
}

/// A tab takes the title of its page without the white space around it, and no blank one; it takes
/// whatever icon its page has. Neither changes anything else of it.
pub proof fn page_gives_title_and_icon(
    state: TabsView,
    at: int,
    title: Seq<char>,
    favicon: Option<Seq<char>>,
)
    requires
        0 <= at < state.tabs.len(),
        forall|i: int, j: int|
            0 <= i < j < state.tabs.len() ==> (#[trigger] state.tabs[i]).id != (#[trigger] state.tabs[j]).id,
    ensures
        ({
            let before = state.tabs[at];
            let shown = crate::text::trimmed(title);
            let named = titled(state, before.id, title).tabs[at];
            let drawn = with_icon(state, before.id, favicon).tabs[at];
            &&& named.title == if shown.len() > 0 {
                shown
            } else {
                before.title
            }
            &&& named.url == before.url && named.favicon == before.favicon && named.loading == before.loading
            &&& drawn.favicon == favicon
            &&& drawn.url == before.url && drawn.title == before.title && drawn.loading == before.loading
        }),
{
    lemma_only_place(state.tabs, at);
}

/// The window shows every tab once, the one opened last first, with its own title, icon and state,
/// and the one at the front as such. The blank page is shown without an address.
pub proof fn tabs_are_shown_newest_first(state: TabsView, at: int)
    requires
        0 <= at < state.tabs.len(),
    ensures
        ({
            let tab = state.tabs[at];
            let shown = shown_tabs(state)[state.tabs.len() - 1 - at];
            &&& shown_tabs(state).len() == state.tabs.len()
            &&& shown.id == tab.id && shown.title == tab.title && shown.favicon == tab.favicon
            &&& shown.loading == tab.loading
            &&& shown.active <==> state.active_id == Some(tab.id)
            &&& tab.url != "about:blank"@ ==> shown.url == tab.url
            &&& tab.url == "about:blank"@ ==> shown.url == Seq::<char>::empty()
        }),
{
}

/// A tab whose page has no title yet is called by the host of its address, and a new tab where there
/// is no host.
pub proof fn untitled_page_is_called_by_its_host(address: AddressView, error: Seq<char>)
    ensures
        address.host is Some && address.host->0.len() > 0 ==> title_of_address(Ok(address)) == address.host->0,
        address.host is None || address.host->0.len() == 0 ==> title_of_address(Ok(address)) == "New Tab"@,
        title_of_address(Err(error)) == "New Tab"@,
{
}

/// Taking back a tab leaves exactly the tabs with another ID, and the front unless it was there.
pub proof fn taking_back_leaves_the_others(state: TabsView, id: u64, tab: TabView)
    ensures
        rolled_back(state, id).tabs.contains(tab) <==> state.tabs.contains(tab) && tab.id != id,
        state.active_id != Some(id) ==> rolled_back(state, id).active_id == state.active_id,
        state.active_id == Some(id) ==> rolled_back(state, id).active_id is None,
        rolled_back(state, id).next_id == state.next_id,
{
    lemma_others(state.tabs, id);
    let left = others(state.tabs, id);
    if left.contains(tab) {
        let k = choose|k: int| 0 <= k < left.len() && left[k] == tab;
        assert(state.tabs.contains(left[k]));
    }
    if state.tabs.contains(tab) && tab.id != id {
        let k = choose|k: int| 0 <= k < state.tabs.len() && state.tabs[k] == tab;
        assert(left.contains(state.tabs[k]));
    }
}

/// The labels of the web views of all tabs.
pub open spec fn labels_of(state: TabsView) -> Seq<Seq<char>> {
    Seq::new(state.tabs.len(), |i: int| state.tabs[i].label)
}

/// Every tab's web view is among the labels, at the tab's place, and there is no other.
pub proof fn labels_are_those_of_the_tabs(state: TabsView, at: int)
    ensures
        labels_of(state).len() == state.tabs.len(),
        0 <= at < state.tabs.len() ==> labels_of(state)[at] == state.tabs[at].label,
{
}

/// Closing a tab that is not at the front leaves the front as it is, also where no tab is there, as
/// long as a tab is left.
pub proof fn closing_behind_the_front_leaves_it(state: TabsView, id: u64)
    requires
        is_open(state.tabs, id),
        state.active_id != Some(id),
        state.tabs.len() > 1,
    ensures
        removed(state, id).active_id == state.active_id,
        removed(state, id).tabs.len() == state.tabs.len() - 1,
{
    place_is_first(state.tabs, id);
}

/// Where no tab is at the front, steps go from the first one.
pub proof fn steps_go_from_the_first_without_a_front(state: TabsView, direction: i32)
    requires
        state.tabs.len() > 0,
        state.active_id is None,
    ensures
        direction > 0 ==> cycled_place(state, direction) == if state.tabs.len() > 1 {
            1int
        } else {
            0
        },
        direction < 0 ==> cycled_place(state, direction) == state.tabs.len() - 1,
        direction == 0 ==> cycled_place(state, direction) == 0,
{
    crate::tabs::lemma_wrap(0, sign(direction), state.tabs.len() as int);
}

/// The tabs after one of them has gone to an address, which is called by its host until it has a title.
pub open spec fn gone_to(state: TabsView, id: u64, url: Seq<char>, loading: bool) -> TabsView {
    navigated(state, id, url, loading, title_of_address(crate::address::parsed_address(url)))
}

/// A tab that goes to another address is called by the host of that address, until its page has a
/// title.
pub proof fn tab_is_called_by_the_host(state: TabsView, at: int, url: Seq<char>, loading: bool, address: AddressView)
    requires
        0 <= at < state.tabs.len(),
        forall|i: int, j: int|
            0 <= i < j < state.tabs.len() ==> (#[trigger] state.tabs[i]).id != (#[trigger] state.tabs[j]).id,
        crate::address::parsed_address(url) == Ok::<AddressView, Seq<char>>(address),
        address.host is Some && address.host->0.len() > 0,
        state.tabs[at].url != url && url != "about:blank"@,
    ensures
        ({
            let after = gone_to(state, state.tabs[at].id, url, loading).tabs[at];
            after.title == address.host->0 && after.url == url && after.loading == loading && after.favicon is None
        }),
{
    lemma_only_place(state.tabs, at);
}

} // verus!
