//! The open tabs of a window.

use crate::address::{address_outcome, parse_address, parsed_address, Address, AddressView};
use crate::paths::texts;
use crate::text::{decimal, decimal_text, opt_text, same_text, trim, trimmed};
use vstd::prelude::*;

verus! {

/// What a tab shows before it has gone anywhere.
pub const PLACEHOLDER_URL: &'static str = "about:blank";

/// What the window shows of a tab.
#[derive(Debug)]
pub struct TabSummary {
    pub id: u64,
    pub title: String,
    pub url: String,
    pub favicon: Option<String>,
    pub loading: bool,
    pub active: bool,
}

/// A summary with its texts as sequences of characters.
#[verifier::ext_equal]
pub struct TabSummaryView {
    pub id: u64,
    pub title: Seq<char>,
    pub url: Seq<char>,
    pub favicon: Option<Seq<char>>,
    pub loading: bool,
    pub active: bool,
}

impl View for TabSummary {
    type V = TabSummaryView;

    open spec fn view(&self) -> TabSummaryView {
        TabSummaryView {
            id: self.id,
            title: self.title@,
            url: self.url@,
            favicon: opt_text(self.favicon),
            loading: self.loading,
            active: self.active,
        }
    }
}

/// One tab. Its label names the web view that belongs to it.
#[derive(Debug)]
pub struct TabRecord {
    pub id: u64,
    pub label: String,
    pub title: String,
    pub url: String,
    pub favicon: Option<String>,
    pub loading: bool,
}

/// A tab with its texts as sequences of characters.
#[verifier::ext_equal]
pub struct TabView {
    pub id: u64,
    pub label: Seq<char>,
    pub title: Seq<char>,
    pub url: Seq<char>,
    pub favicon: Option<Seq<char>>,
    pub loading: bool,
}

impl View for TabRecord {
    type V = TabView;

    open spec fn view(&self) -> TabView {
        TabView {
            id: self.id,
            label: self.label@,
            title: self.title@,
            url: self.url@,
            favicon: opt_text(self.favicon),
            loading: self.loading,
        }
    }
}

impl Clone for TabRecord {
    fn clone(&self) -> (r: TabRecord)
        ensures
            r@ == self@,
    {
        TabRecord {
            id: self.id,
            label: self.label.clone(),
            title: self.title.clone(),
            url: self.url.clone(),
            favicon: self.favicon.clone(),
            loading: self.loading,
        }
    }
}

/// The views of tabs.
pub open spec fn tab_views(tabs: Seq<TabRecord>) -> Seq<TabView> {
    Seq::new(tabs.len(), |i: int| tabs[i]@)
}

/// The views of summaries.
pub open spec fn summary_views(summaries: Seq<TabSummary>) -> Seq<TabSummaryView> {
    Seq::new(summaries.len(), |i: int| summaries[i]@)
}

/// The open tabs, in the order in which they were opened.
pub struct TabManager {
    pub next_id: u64,
    pub active_id: Option<u64>,
    pub tabs: Vec<TabRecord>,
    pub profile_name: String,
}

/// The open tabs as a sequence.
#[verifier::ext_equal]
pub struct TabsView {
    pub next_id: u64,
    pub active_id: Option<u64>,
    pub tabs: Seq<TabView>,
    pub profile_name: Seq<char>,
}

impl View for TabManager {
    type V = TabsView;

    open spec fn view(&self) -> TabsView {
        TabsView {
            next_id: self.next_id,
            active_id: self.active_id,
            tabs: tab_views(self.tabs@),
            profile_name: self.profile_name@,
        }
    }
}

/// The index of the first tab with an ID, or the number of tabs if there is none.
pub open spec fn place(tabs: Seq<TabView>, id: u64) -> nat
    decreases tabs.len(),
{
    if tabs.len() == 0 || tabs[0].id == id {
        0
    } else {
        1 + place(tabs.skip(1), id)
    }
}

/// Whether a tab with the ID is open.
pub open spec fn is_open(tabs: Seq<TabView>, id: u64) -> bool {
    place(tabs, id) < tabs.len()
}

/// What `place` finds is the first tab with the ID, and it finds one if there is one.
pub proof fn place_is_first(tabs: Seq<TabView>, id: u64)
    ensures
        place(tabs, id) <= tabs.len(),
        is_open(tabs, id) ==> tabs[place(tabs, id) as int].id == id,
        forall|i: int| 0 <= i < place(tabs, id) ==> (#[trigger] tabs[i]).id != id,
    decreases tabs.len(),
{
    if tabs.len() > 0 && tabs[0].id != id {
        let rest = tabs.skip(1);
        place_is_first(rest, id);
        assert forall|i: int| 0 <= i < place(tabs, id) implies (#[trigger] tabs[i]).id != id by {
            if i > 0 {
                assert(rest[i - 1] == tabs[i]);
            }
        }
    }
}

/// A tab that is the first with its ID is where `place` finds it.
proof fn lemma_place(tabs: Seq<TabView>, id: u64, i: int)
    requires
        0 <= i <= tabs.len(),
        i < tabs.len() ==> tabs[i].id == id,
        forall|j: int| 0 <= j < i ==> (#[trigger] tabs[j]).id != id,
    ensures
        place(tabs, id) == i,
{
    place_is_first(tabs, id);
    let p = place(tabs, id) as int;
    if p < i {
        assert(tabs[p].id != id);
    } else if p > i {
        assert(tabs[i].id != id);
    }
}

/// What the window shows of a tab.
pub open spec fn summary_of(tab: TabView, active_id: Option<u64>) -> TabSummaryView {
    TabSummaryView {
        id: tab.id,
        title: tab.title,
        url: if tab.url == PLACEHOLDER_URL@ {
            Seq::empty()
        } else {
            tab.url
        },
        favicon: tab.favicon,
        loading: tab.loading,
        active: active_id == Some(tab.id),
    }
}

/// What the window shows of the tabs, the newest first.
pub open spec fn shown_tabs(state: TabsView) -> Seq<TabSummaryView> {
    Seq::new(
        state.tabs.len(),
        |i: int| summary_of(state.tabs[state.tabs.len() - 1 - i], state.active_id),
    )
}

/// The label of the web view of a tab.
pub open spec fn label_of(id: u64) -> Seq<char> {
    "content-"@ + decimal(id as nat)
}

/// A tab that has just been opened.
pub open spec fn new_tab(id: u64) -> TabView {
    TabView {
        id,
        label: label_of(id),
        title: "New Tab"@,
        url: PLACEHOLDER_URL@,
        favicon: None,
        loading: false,
    }
}

/// The tabs after one more has been opened.
pub open spec fn reserved(state: TabsView) -> TabsView {
    TabsView {
        next_id: if state.next_id < u64::MAX {
            (state.next_id + 1) as u64
        } else {
            u64::MAX
        },
        tabs: state.tabs.push(new_tab(state.next_id)),
        ..state
    }
}

/// The tabs without those that have the ID, in their order.
pub open spec fn others(tabs: Seq<TabView>, id: u64) -> Seq<TabView>
    decreases tabs.len(),
{
    if tabs.len() == 0 {
        tabs
    } else if tabs.last().id == id {
        others(tabs.drop_last(), id)
    } else {
        others(tabs.drop_last(), id).push(tabs.last())
    }
}

/// The tabs after the opening of one has failed.
pub open spec fn rolled_back(state: TabsView, id: u64) -> TabsView {
    TabsView {
        tabs: others(state.tabs, id),
        active_id: if state.active_id == Some(id) {
            None
        } else {
            state.active_id
        },
        ..state
    }
}

/// The tabs after one has come to the front.
pub open spec fn activated(state: TabsView, id: u64) -> TabsView {
    if is_open(state.tabs, id) {
        TabsView { active_id: Some(id), ..state }
    } else {
        state
    }
}

/// The label of the tab at the front.
pub open spec fn active_label(state: TabsView) -> Option<Seq<char>> {
    match state.active_id {
        Some(id) => if is_open(state.tabs, id) {
            Some(state.tabs[place(state.tabs, id) as int].label)
        } else {
            None
        },
        None => None,
    }
}

/// The smaller of two indices.
pub open spec fn smaller(a: int, b: int) -> int {
    if a < b {
        a
    } else {
        b
    }
}

/// The tab at the front after one has been closed: the one behind the closed tab in the order of
/// opening if that was at the front, or else the last.
pub open spec fn next_active(state: TabsView, id: u64) -> Option<u64> {
    let index = place(state.tabs, id) as int;
    let left = state.tabs.remove(index);
    if left.len() == 0 {
        None
    } else if state.active_id == Some(id) {
        Some(left[smaller(index, left.len() - 1)].id)
    } else {
        state.active_id
    }
}

/// The tabs after one has been closed.
pub open spec fn removed(state: TabsView, id: u64) -> TabsView {
    if is_open(state.tabs, id) {
        TabsView {
            tabs: state.tabs.remove(place(state.tabs, id) as int),
            active_id: next_active(state, id),
            ..state
        }
    } else {
        state
    }
}

/// The index of the tab at the front, or zero if none is.
pub open spec fn active_place(state: TabsView) -> int {
    match state.active_id {
        Some(id) => if is_open(state.tabs, id) {
            place(state.tabs, id) as int
        } else {
            0
        },
        None => 0,
    }
}

/// The direction of a step: one forward, one back, or none.
pub open spec fn sign(direction: i32) -> int {
    if direction > 0 {
        1
    } else if direction < 0 {
        -1
    } else {
        0
    }
}

/// The index of the tab one step away from the front, around the ends.
pub open spec fn cycled_place(state: TabsView, direction: i32) -> int {
    (active_place(state) + sign(direction)) % (state.tabs.len() as int)
}

/// The tabs with one of them changed, the first that has the ID.
pub open spec fn with_tab(state: TabsView, id: u64, tab: TabView) -> TabsView {
    TabsView { tabs: state.tabs.update(place(state.tabs, id) as int, tab), ..state }
}

/// The title of a tab that has gone to an address and has not been given one: its host.
pub open spec fn title_of_address(parsed: Result<AddressView, Seq<char>>) -> Seq<char> {
    match parsed {
        Ok(address) => match address.host {
            Some(host) => if host.len() > 0 {
                host
            } else {
                "New Tab"@
            },
            None => "New Tab"@,
        },
        Err(_) => "New Tab"@,
    }
}

/// A tab that goes to an address. Its title and its icon are those of the page it leaves, so a
/// new address drops them.
pub open spec fn navigated_tab(tab: TabView, url: Seq<char>, loading: bool, title: Seq<char>) -> TabView {
    if tab.url != url && url != PLACEHOLDER_URL@ {
        TabView { url, loading, title, favicon: None, ..tab }
    } else {
        TabView { url, loading, ..tab }
    }
}

/// The tabs after one of them has gone to an address.
pub open spec fn navigated(state: TabsView, id: u64, url: Seq<char>, loading: bool, title: Seq<char>) -> TabsView {
    if is_open(state.tabs, id) {
        with_tab(state, id, navigated_tab(state.tabs[place(state.tabs, id) as int], url, loading, title))
    } else {
        state
    }
}

/// The tabs after the page in one of them has got a title. A blank title is none.
pub open spec fn titled(state: TabsView, id: u64, title: Seq<char>) -> TabsView {
    if is_open(state.tabs, id) && trimmed(title).len() > 0 {
        with_tab(state, id, TabView { title: trimmed(title), ..state.tabs[place(state.tabs, id) as int] })
    } else {
        state
    }
}

/// The tabs after the page in one of them has got an icon.
pub open spec fn with_icon(state: TabsView, id: u64, favicon: Option<Seq<char>>) -> TabsView {
    if is_open(state.tabs, id) {
        with_tab(state, id, TabView { favicon, ..state.tabs[place(state.tabs, id) as int] })
    } else {
        state
    }
}

/// The title that a tab shows for a parsed address.
pub fn address_title(parsed: Result<Address, String>) -> (r: String)
    ensures
        r@ == title_of_address(address_outcome(parsed)),
{
    match parsed {
        Ok(address) => match address.host {
            Some(host) => {
                if host.as_str().is_empty() {
                    "New Tab".to_owned()
                } else {
                    host
                }
            },
            None => "New Tab".to_owned(),
        },
        Err(_) => "New Tab".to_owned(),
    }
}

/// The title that a tab shows for an address.
pub fn display_url_title(url: &str) -> (r: String)
    ensures
        r@ == title_of_address(parsed_address(url@)),
{
    address_title(parse_address(url))
}

impl TabManager {
    /// No tab is open.
    pub fn new(profile_name: String) -> (r: TabManager)
        ensures
            r@ == (TabsView {
                next_id: 1,
                active_id: None,
                tabs: Seq::empty(),
                profile_name: profile_name@,
            }),
    {
        let r: TabManager = TabManager { next_id: 1, active_id: None, tabs: Vec::new(), profile_name };
        assert(r@.tabs =~= Seq::empty());
        r
    }

    /// The index of the first tab with the ID.
    fn position(&self, id: u64) -> (r: Option<usize>)
        ensures
            match r {
                Some(i) => i < self.tabs@.len() && i == place(self@.tabs, id),
                None => !is_open(self@.tabs, id) && place(self@.tabs, id) == self.tabs@.len(),
            },
    {
        let mut i: usize = 0;
        while i < self.tabs.len()
            invariant
                i <= self.tabs@.len(),
                forall|j: int| 0 <= j < i ==> (#[trigger] self@.tabs[j]).id != id,
            decreases self.tabs@.len() - i,
        {
            if self.tabs[i].id == id {
                proof {
                    lemma_place(self@.tabs, id, i as int);
                }
                return Some(i);
            }
            i = i + 1;
        }
        proof {
            lemma_place(self@.tabs, id, i as int);
        }
        None
    }

    /// What the window shows of the tabs, the newest first.
    pub fn summaries(&self) -> (r: Vec<TabSummary>)
        ensures
            summary_views(r@) == shown_tabs(self@),
    {
        let mut r: Vec<TabSummary> = Vec::new();
        let mut left: usize = self.tabs.len();
        while left > 0
            invariant
                left <= self.tabs@.len(),
                r@.len() == self.tabs@.len() - left,
                forall|i: int| 0 <= i < r@.len() ==> (#[trigger] r@[i])@ == shown_tabs(self@)[i],
            decreases left,
        {
            left = left - 1;
            let tab: &TabRecord = &self.tabs[left];
            assert(self@.tabs[left as int] == tab@);
            let url: String = if same_text(tab.url.as_str(), PLACEHOLDER_URL) {
                String::new()
            } else {
                tab.url.clone()
            };
            let active: bool = match self.active_id {
                Some(id) => id == tab.id,
                None => false,
            };
            let summary: TabSummary = TabSummary {
                id: tab.id,
                title: tab.title.clone(),
                url,
                favicon: tab.favicon.clone(),
                loading: tab.loading,
                active,
            };
            assert(summary@.url =~= summary_of(tab@, self@.active_id).url);
            assert(summary@ == summary_of(tab@, self@.active_id));
            r.push(summary);
        }
        assert(summary_views(r@) =~= shown_tabs(self@));
        r
    }

    /// Opens a tab and gives its ID and the label of its web view.
    pub fn reserve(&mut self) -> (r: (u64, String))
        ensures
            r.0 == old(self)@.next_id,
            r.1@ == label_of(old(self)@.next_id),
            final(self)@ == reserved(old(self)@),
    {
        let ghost before = self@;
        let id: u64 = self.next_id;
        self.next_id = self.next_id.saturating_add(1);
        let mut label: String = "content-".to_owned();
        label.append(decimal_text(id).as_str());
        let tab: TabRecord = TabRecord {
            id,
            label: label.clone(),
            title: "New Tab".to_owned(),
            url: PLACEHOLDER_URL.to_owned(),
            favicon: None,
            loading: false,
        };
        self.tabs.push(tab);
        assert(self@.tabs =~= reserved(before).tabs);
        (id, label)
    }

    /// Takes back a tab whose opening has failed.
    pub fn rollback(&mut self, id: u64)
        ensures
            final(self)@ == rolled_back(old(self)@, id),
    {
        let ghost all = self@.tabs;
        let mut left: Vec<TabRecord> = Vec::new();
        let mut i: usize = 0;
        assert(tab_views(left@) =~= others(all.take(0), id));
        while i < self.tabs.len()
            invariant
                i <= self.tabs@.len(),
                all == self@.tabs,
                tab_views(left@) == others(all.take(i as int), id),
            decreases self.tabs@.len() - i,
        {
            let tab: &TabRecord = &self.tabs[i];
            let ghost before = left@;
            assert(all.take(i + 1).drop_last() =~= all.take(i as int));
            assert(all.take(i + 1).last() == tab@);
            if tab.id != id {
                left.push(tab.clone());
                assert(tab_views(left@) =~= tab_views(before).push(tab@));
            }
            i = i + 1;
        }
        assert(all.take(i as int) =~= all);
        self.tabs = left;
        match self.active_id {
            Some(active) => {
                if active == id {
                    self.active_id = None;
                }
            },
            None => {},
        }
    }

    pub fn active_id(&self) -> (r: Option<u64>)
        ensures
            r == self@.active_id,
    {
        self.active_id
    }

    /// Brings a tab to the front. Gives the label of the web view that was there and of the one
    /// that is.
    pub fn activate(&mut self, id: u64) -> (r: Result<(Option<String>, String), String>)
        ensures
            final(self)@ == activated(old(self)@, id),
            match r {
                Ok((old_label, new_label)) => {
                    &&& is_open(old(self)@.tabs, id)
                    &&& opt_text(old_label) == active_label(old(self)@)
                    &&& new_label@ == old(self)@.tabs[place(old(self)@.tabs, id) as int].label
                },
                Err(message) => {
                    &&& !is_open(old(self)@.tabs, id)
                    &&& message@ == "That tab is no longer open."@
                },
            },
    {
        let new_label: String = match self.position(id) {
            Some(i) => self.tabs[i].label.clone(),
            None => {
                return Err("That tab is no longer open.".to_owned());
            },
        };
        let old_label: Option<String> = match self.active_id {
            Some(active) => match self.position(active) {
                Some(i) => Some(self.tabs[i].label.clone()),
                None => None,
            },
            None => None,
        };
        self.active_id = Some(id);
        Ok((old_label, new_label))
    }

    /// The tab at the front and the label of its web view.
    pub fn active(&self) -> (r: Result<(u64, String), String>)
        ensures
            match r {
                Ok((id, label)) => {
                    &&& self@.active_id == Some(id)
                    &&& active_label(self@) == Some(label@)
                },
                Err(message) => {
                    &&& active_label(self@) is None
                    &&& message@ == if self@.active_id is None {
                        "There is no active tab."@
                    } else {
                        "The active tab is no longer available."@
                    }
                },
            },
    {
        match self.active_id {
            Some(id) => match self.position(id) {
                Some(i) => Ok((id, self.tabs[i].label.clone())),
                None => Err("The active tab is no longer available.".to_owned()),
            },
            None => Err("There is no active tab.".to_owned()),
        }
    }

    /// The labels of the web views of all tabs.
    pub fn labels(&self) -> (r: Vec<String>)
        ensures
            texts(r@) == Seq::new(self@.tabs.len(), |i: int| self@.tabs[i].label),
            texts(r@) == crate::tab_laws::labels_of(self@),
    {
        let mut r: Vec<String> = Vec::new();
        let mut i: usize = 0;
        while i < self.tabs.len()
            invariant
                i <= self.tabs@.len(),
                r@.len() == i,
                forall|j: int| 0 <= j < i ==> (#[trigger] r@[j])@ == self@.tabs[j].label,
            decreases self.tabs@.len() - i,
        {
            r.push(self.tabs[i].label.clone());
            i = i + 1;
        }
        assert(texts(r@) =~= Seq::new(self@.tabs.len(), |i: int| self@.tabs[i].label));
        assert(texts(r@) =~= crate::tab_laws::labels_of(self@));
        r
    }

    /// Closes a tab. Gives the label of its web view, the tab at the front after that, and
    /// whether the closed one was there.
    pub fn remove(&mut self, id: u64) -> (r: Result<(String, Option<u64>, bool), String>)
        ensures
            final(self)@ == removed(old(self)@, id),
            match r {
                Ok((label, next_id, was_active)) => {
                    &&& is_open(old(self)@.tabs, id)
                    &&& label@ == old(self)@.tabs[place(old(self)@.tabs, id) as int].label
                    &&& next_id == next_active(old(self)@, id)
                    &&& was_active == (old(self)@.active_id == Some(id))
                },
                Err(message) => {
                    &&& !is_open(old(self)@.tabs, id)
                    &&& message@ == "That tab is no longer open."@
                },
            },
    {
        let ghost before = self@;
        let index: usize = match self.position(id) {
            Some(i) => i,
            None => {
                return Err("That tab is no longer open.".to_owned());
            },
        };
        let was_active: bool = match self.active_id {
            Some(active) => active == id,
            None => false,
        };
        let closed: TabRecord = self.tabs.remove(index);
        assert(self@.tabs =~= before.tabs.remove(index as int));
        let next_id: Option<u64> = if self.tabs.len() == 0 {
            None
        } else if was_active {
            let last: usize = self.tabs.len() - 1;
            if index < last {
                Some(self.tabs[index].id)
            } else {
                Some(self.tabs[last].id)
            }
        } else {
            self.active_id
        };
        self.active_id = next_id;
        Ok((closed.label, next_id, was_active))
    }

    /// The tab one step away from the front, around the ends.
    pub fn cycle_target(&self, direction: i32) -> (r: Result<u64, String>)
        ensures
            match r {
                Ok(id) => {
                    &&& self@.tabs.len() > 0
                    &&& id == self@.tabs[cycled_place(self@, direction)].id
                },
                Err(message) => self@.tabs.len() == 0 && message@ == "There are no open tabs."@,
            },
    {
        let len: usize = self.tabs.len();
        if len == 0 {
            return Err("There are no open tabs.".to_owned());
        }
        let current: usize = match self.active_id {
            Some(id) => match self.position(id) {
                Some(i) => i,
                None => 0,
            },
            None => 0,
        };
        let next: usize = if direction > 0 {
            if current + 1 < len {
                current + 1
            } else {
                0
            }
        } else if direction < 0 {
            if current > 0 {
                current - 1
            } else {
                len - 1
            }
        } else {
            current
        };
        proof {
            lemma_wrap(current as int, sign(direction), len as int);
        }
        Ok(self.tabs[next].id)
    }

    /// Shows that a tab has gone to an address, whose title would be the given one.
    pub fn show_navigation(&mut self, id: u64, url: &str, loading: bool, title: String)
        ensures
            final(self)@ == navigated(old(self)@, id, url@, loading, title@),
    {
        let ghost before = self@;
        match self.position(id) {
            Some(i) => {
                let mut tab: TabRecord = self.tabs[i].clone();
                let changed: bool = !same_text(tab.url.as_str(), url);
                tab.url = url.to_owned();
                tab.loading = loading;
                if changed && !same_text(url, PLACEHOLDER_URL) {
                    tab.title = title;
                    tab.favicon = None;
                }
                self.tabs.set(i, tab);
                assert(self@.tabs =~= navigated(before, id, url@, loading, title@).tabs);
            },
            None => {},
        }
    }

    /// Shows that a tab has gone to an address.
    pub fn update_navigation(&mut self, id: u64, url: &str, loading: bool)
        ensures
            final(self)@ == navigated(old(self)@, id, url@, loading, title_of_address(parsed_address(url@))),
            final(self)@ == crate::tab_laws::gone_to(old(self)@, id, url@, loading),
    {
        self.show_navigation(id, url, loading, display_url_title(url));
    }

    /// Shows the title of the page in a tab. Tells whether the tab is at the front.
    pub fn update_title(&mut self, id: u64, title: &str) -> (r: bool)
        ensures
            final(self)@ == titled(old(self)@, id, title@),
            r == (old(self)@.active_id == Some(id)),
    {
        let ghost before = self@;
        let active: bool = match self.active_id {
            Some(front) => front == id,
            None => false,
        };
        match self.position(id) {
            Some(i) => {
                let shown: String = trim(title);
                if !shown.as_str().is_empty() {
                    let mut tab: TabRecord = self.tabs[i].clone();
                    tab.title = shown;
                    self.tabs.set(i, tab);
                    assert(self@.tabs =~= titled(before, id, title@).tabs);
                }
            },
            None => {},
        }
        active
    }

    /// Shows the icon of the page in a tab.
    pub fn update_favicon(&mut self, id: u64, favicon: Option<String>)
        ensures
            final(self)@ == with_icon(old(self)@, id, opt_text(favicon)),
    {
        let ghost before = self@;
        match self.position(id) {
            Some(i) => {
                let mut tab: TabRecord = self.tabs[i].clone();
                tab.favicon = favicon;
                self.tabs.set(i, tab);
                assert(self@.tabs =~= with_icon(before, id, opt_text(favicon)).tabs);
            },
            None => {},
        }
    }
}

/// One step from an index wraps around the ends.
pub proof fn lemma_wrap(current: int, step: int, len: int)
    requires
        0 <= current < len,
        -1 <= step <= 1,
    ensures
        (current + step) % len == if current + step == len {
            0
        } else if current + step < 0 {
            len - 1
        } else {
            current + step
        },
{
    if current + step == len {
        vstd::arithmetic::div_mod::lemma_mod_self_0(len);
    } else if current + step < 0 {
        vstd::arithmetic::div_mod::lemma_mod_add_multiples_vanish(current + step, len);
        vstd::arithmetic::div_mod::lemma_small_mod((len - 1) as nat, len as nat);
    } else {
        vstd::arithmetic::div_mod::lemma_small_mod((current + step) as nat, len as nat);
    }
}

} // verus!
