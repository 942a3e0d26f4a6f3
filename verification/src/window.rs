//! What the window around the tabs does: titles, shortcuts and the steps after a tab is closed.

use crate::tabs::{
    is_open, next_active, place, removed, shown_tabs, summary_views, TabManager, TabSummary, TabSummaryView, TabsView,
};
use crate::text::{opt_text, same_text};
use vstd::prelude::*;

verus! {

/// The title of a window that shows a page.
pub open spec fn page_title(title: Seq<char>, profile: Seq<char>) -> Seq<char> {
    title + " — "@ + profile + " — Folio"@
}

/// The title of a window that shows a page.
pub fn window_title(title: &str, profile: &str) -> (r: String)
    ensures
        r@ == page_title(title@, profile@),
{
    let mut text: String = title.to_owned();
    text.append(" — ");
    text.append(profile);
    text.append(" — Folio");
    text
}

/// The title of a window that has just been opened.
pub fn start_title(profile: &str) -> (r: String)
    ensures
        r@ == "Folio — "@ + profile@,
        r@ == opening_title(profile@),
{
    let mut text: String = "Folio — ".to_owned();
    text.append(profile);
    text
}

/// The keys that the browser knows, by their virtual key codes.
pub open spec fn shortcut_name(ctrl: bool, shift: bool, alt: bool, key: u32) -> Option<Seq<char>> {
    if ctrl {
        if key == 0x54 {
            Some("new-tab"@)
        } else if key == 0x57 {
            Some("close-tab"@)
        } else if key == 0x4c {
            Some("focus-address"@)
        } else if key == 0x52 {
            Some("reload"@)
        } else if key == 0x09 && shift {
            Some("previous-tab"@)
        } else if key == 0x09 {
            Some("next-tab"@)
        } else {
            None
        }
    } else if alt {
        if key == 0x25 {
            Some("back"@)
        } else if key == 0x27 {
            Some("forward"@)
        } else {
            None
        }
    } else {
        None
    }
}

/// The shortcut that a key stands for, if any.
pub fn shortcut(ctrl: bool, shift: bool, alt: bool, key: u32) -> (r: Option<&'static str>)
    ensures
        match r {
            Some(name) => shortcut_name(ctrl, shift, alt, key) == Some(name@),
            None => shortcut_name(ctrl, shift, alt, key) is None,
        },
{
    if ctrl {
        match key {
            0x54 => Some("new-tab"),
            0x57 => Some("close-tab"),
            0x4c => Some("focus-address"),
            0x52 => Some("reload"),
            0x09 => if shift {
                Some("previous-tab")
            } else {
                Some("next-tab")
            },
            _ => None,
        }
    } else if alt {
        match key {
            0x25 => Some("back"),
            0x27 => Some("forward"),
            _ => None,
        }
    } else {
        None
    }
}

/// The web view to hide when another comes to the front.
pub fn hidden_label(old_label: Option<String>, new_label: &str) -> (r: Option<String>)
    ensures
        opt_text(r) == match old_label {
            Some(label) => if label@ == new_label@ {
                None
            } else {
                Some(label@)
            },
            None => None,
        },
        opt_text(r) == to_hide(opt_text(old_label), new_label@),
{
    match old_label {
        Some(label) => {
            if same_text(label.as_str(), new_label) {
                None
            } else {
                Some(label)
            }
        },
        None => None,
    }
}

/// The first summary of a tab at the front.
pub open spec fn front_summary(shown: Seq<TabSummaryView>) -> Option<TabSummaryView>
    decreases shown.len(),
{
    if shown.len() == 0 {
        None
    } else if shown[0].active {
        Some(shown[0])
    } else {
        front_summary(shown.skip(1))
    }
}

/// The first summary of a tab with the ID.
pub open spec fn summary_with_id(shown: Seq<TabSummaryView>, id: u64) -> Option<TabSummaryView>
    decreases shown.len(),
{
    if shown.len() == 0 {
        None
    } else if shown[0].id == id {
        Some(shown[0])
    } else {
        summary_with_id(shown.skip(1), id)
    }
}

/// What remains to be done once the web view of a closed tab is gone.
#[derive(Clone, Copy, Debug, PartialEq, Eq, Structural)]
pub enum CloseStep {
    /// No tab can come to the front: the window closes.
    CloseWindow,
    /// Another tab comes to the front.
    Activate(u64),
    /// The front stays; the list of tabs is shown anew.
    Refresh,
}

/// What remains to be done once a tab has been closed.
pub open spec fn close_step(state: TabsView, id: u64) -> CloseStep {
    match next_active(state, id) {
        None => CloseStep::CloseWindow,
        Some(next) => if state.active_id == Some(id) {
            CloseStep::Activate(next)
        } else {
            CloseStep::Refresh
        },
    }
}

impl TabManager {
    /// The title of the window for the tab at the front.
    pub fn front_title(&self) -> (r: Option<String>)
        ensures
            opt_text(r) == match front_summary(shown_tabs(self@)) {
                Some(summary) => Some(page_title(summary.title, self@.profile_name)),
                None => None,
            },
    {
        let summaries: Vec<TabSummary> = self.summaries();
        let ghost shown = shown_tabs(self@);
        let mut i: usize = 0;
        assert(shown.skip(0) =~= shown);
        while i < summaries.len()
            invariant
                i <= summaries@.len(),
                shown == shown_tabs(self@),
                shown == summary_views(summaries@),
                front_summary(shown) == front_summary(shown.skip(i as int)),
            decreases summaries@.len() - i,
        {
            let summary: &TabSummary = &summaries[i];
            assert(shown.skip(i as int)[0] == summary@);
            if summary.active {
                return Some(window_title(summary.title.as_str(), self.profile_name.as_str()));
            }
            assert(shown.skip(i as int).skip(1) =~= shown.skip(i + 1));
            i = i + 1;
        }
        None
    }

    /// The summary of a tab that has just been opened.
    pub fn opened_summary(&self, id: u64) -> (r: Result<TabSummary, String>)
        ensures
            match r {
                Ok(summary) => summary_with_id(shown_tabs(self@), id) == Some(summary@),
                Err(message) => {
                    &&& summary_with_id(shown_tabs(self@), id) is None
                    &&& message@ == "Could not read the new tab."@
                },
            },
    {
        let mut summaries: Vec<TabSummary> = self.summaries();
        let ghost shown = shown_tabs(self@);
        let mut i: usize = 0;
        assert(shown.skip(0) =~= shown);
        while i < summaries.len()
            invariant
                i <= summaries@.len(),
                shown == shown_tabs(self@),
                shown == summary_views(summaries@),
                summary_with_id(shown, id) == summary_with_id(shown.skip(i as int), id),
            decreases summaries@.len() - i,
        {
            assert(shown.skip(i as int)[0] == summaries@[i as int]@);
            if summaries[i].id == id {
                return Ok(summaries.remove(i));
            }
            assert(shown.skip(i as int).skip(1) =~= shown.skip(i + 1));
            i = i + 1;
        }
        Err("Could not read the new tab.".to_owned())
    }

    /// Closes a tab. Gives the label of its web view and what remains to be done without it.
    pub fn close_tab(&mut self, id: u64) -> (r: Result<(String, CloseStep), String>)
        ensures
            final(self)@ == removed(old(self)@, id),
            match r {
                Ok((label, step)) => {
                    &&& is_open(old(self)@.tabs, id)
                    &&& label@ == old(self)@.tabs[place(old(self)@.tabs, id) as int].label
                    &&& step == close_step(old(self)@, id)
                },
                Err(message) => {
                    &&& !is_open(old(self)@.tabs, id)
                    &&& message@ == "That tab is no longer open."@
                },
            },
    {
        match self.remove(id) {
            Ok((label, next_id, was_active)) => {
                let step: CloseStep = match next_id {
                    None => CloseStep::CloseWindow,
                    Some(next) => {
                        if was_active {
                            CloseStep::Activate(next)
                        } else {
                            CloseStep::Refresh
                        }
                    },
                };
                Ok((label, step))
            },
            Err(message) => Err(message),
        }
    }
}

/// The title of a window is the title of its page, the profile and the browser's name, so a window
/// tells its page and its profile.
pub proof fn window_tells_page_and_profile(title: Seq<char>, profile: Seq<char>)
    ensures
        page_title(title, profile) == title + " — "@ + profile + " — Folio"@,
        page_title(title, profile).take(title.len() as int) == title,
{
    assert(page_title(title, profile).take(title.len() as int) =~= title);
}

/// With Ctrl, T opens a tab, W closes it, L goes to the address, R loads anew and Tab goes to the
/// next tab, with Shift to the previous one; with Alt alone the arrows go back and forward. Ctrl goes
/// before Alt, and no other key does anything.
pub proof fn keys_do_what_they_stand_for(shift: bool, alt: bool, key: u32)
    ensures
        shortcut_name(true, shift, alt, 'T' as u32) == Some("new-tab"@),
        shortcut_name(true, shift, alt, 'W' as u32) == Some("close-tab"@),
        shortcut_name(true, shift, alt, 'L' as u32) == Some("focus-address"@),
        shortcut_name(true, shift, alt, 'R' as u32) == Some("reload"@),
        shortcut_name(true, false, alt, 9) == Some("next-tab"@),
        shortcut_name(true, true, alt, 9) == Some("previous-tab"@),
        shortcut_name(false, shift, true, 37) == Some("back"@),
        shortcut_name(false, shift, true, 39) == Some("forward"@),
        shortcut_name(false, shift, false, key) is None,
        shortcut_name(true, shift, alt, key) is Some ==> key == 'T' as u32 || key == 'W' as u32 || key == 'L' as u32
            || key == 'R' as u32 || key == 9,
        shortcut_name(false, shift, alt, key) is Some ==> alt && (key == 37 || key == 39),
{
}

/// The summary of the front is the first that is marked as such, and there is none only where none
/// is; the summary of an ID is the first with that ID, and so on.
pub proof fn summaries_are_found_first(shown: Seq<TabSummaryView>, id: u64)
    ensures
        match front_summary(shown) {
            Some(summary) => exists|i: int|
                {
                    &&& 0 <= i < shown.len()
                    &&& #[trigger] shown[i] == summary
                    &&& summary.active
                    &&& forall|j: int| 0 <= j < i ==> !(#[trigger] shown[j]).active
                },
            None => forall|j: int| 0 <= j < shown.len() ==> !(#[trigger] shown[j]).active,
        },
        match summary_with_id(shown, id) {
            Some(summary) => exists|i: int|
                {
                    &&& 0 <= i < shown.len()
                    &&& #[trigger] shown[i] == summary
                    &&& summary.id == id
                    &&& forall|j: int| 0 <= j < i ==> (#[trigger] shown[j]).id != id
                },
            None => forall|j: int| 0 <= j < shown.len() ==> (#[trigger] shown[j]).id != id,
        },
    decreases shown.len(),
{
    if shown.len() > 0 {
        let rest = shown.skip(1);
        summaries_are_found_first(rest, id);
        assert forall|j: int| 0 < j < shown.len() implies #[trigger] shown[j] == rest[j - 1] by {}
        if !shown[0].active {
            match front_summary(rest) {
                Some(summary) => {
                    let i = choose|i: int|
                        {
                            &&& 0 <= i < rest.len()
                            &&& #[trigger] rest[i] == summary
                            &&& summary.active
                            &&& forall|j: int| 0 <= j < i ==> !(#[trigger] rest[j]).active
                        };
                    assert(shown[i + 1] == summary);
                },
                None => {},
            }
        } else {
            assert(shown[0] == shown[0]);
        }
        if shown[0].id != id {
            match summary_with_id(rest, id) {
                Some(summary) => {
                    let i = choose|i: int|
                        {
                            &&& 0 <= i < rest.len()
                            &&& #[trigger] rest[i] == summary
                            &&& summary.id == id
                            &&& forall|j: int| 0 <= j < i ==> (#[trigger] rest[j]).id != id
                        };
                    assert(shown[i + 1] == summary);
                },
                None => {},
            }
        } else {
            assert(shown[0] == shown[0]);
        }
    }
}

/// Closing the last tab closes the window; closing the tab at the front brings another there, which
/// then is at the front; closing any other tab leaves the front.
pub proof fn closing_a_tab_goes_on(state: TabsView, id: u64)
    requires
        is_open(state.tabs, id),
        state.active_id is Some,
    ensures
        ({
            let after = removed(state, id);
            match close_step(state, id) {
                CloseStep::CloseWindow => after.tabs.len() == 0,
                CloseStep::Activate(next) => state.active_id == Some(id) && after.active_id == Some(next)
                    && after.tabs.len() > 0,
                CloseStep::Refresh => state.active_id != Some(id) && after.active_id == state.active_id
                    && after.tabs.len() > 0,
            }
        }),
        removed(state, id).tabs.len() == state.tabs.len() - 1,
{
    crate::tabs::place_is_first(state.tabs, id);
}

/// The title of a window that has just been opened.
pub open spec fn opening_title(profile: Seq<char>) -> Seq<char> {
    "Folio — "@ + profile
}

/// The web view to hide when another comes to the front.
pub open spec fn to_hide(old_label: Option<Seq<char>>, new_label: Seq<char>) -> Option<Seq<char>> {
    match old_label {
        Some(label) => if label == new_label {
            None
        } else {
            Some(label)
        },
        None => None,
    }
}

/// A window that has just been opened is called by the browser and its profile. The web view that was
/// at the front is hidden when another comes there, and not when it stays there.
pub proof fn window_opens_with_its_profile(profile: Seq<char>, old: Seq<char>, new: Seq<char>)
    ensures
        opening_title(profile) == "Folio — "@ + profile,
        old != new ==> to_hide(Some(old), new) == Some(old),
        to_hide(Some(new), new) is None,
        to_hide(None, new) is None,
{
}

} // verus!
