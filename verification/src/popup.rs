//! Requests for a tab: from the user, who gets a new one, or from a page, whose popup link is
//! redirected into the tab at the front.

use crate::address::{address_outcome, parse_address, parsed_address, Address, AddressView};
use crate::history::{PendingNavigation, PendingNavigationView};
use crate::navigation::{popup_navigation, popup_target};
use crate::tabs::{active_label, TabManager, TabsView};
use crate::views::{step_views, ViewStep, ViewStepView};
use vstd::prelude::*;

verus! {

/// What follows from a request for a tab.
#[derive(Debug)]
pub enum TabRequest {
    /// A new tab is opened.
    Open,
    /// The tab `id`, which is at the front, goes to the address of the popup.
    Redirect { id: u64, steps: Vec<ViewStep>, pending: PendingNavigation },
}

/// What follows from a request, with its texts as sequences of characters.
pub enum TabRequestView {
    Open,
    Redirect { id: u64, steps: Seq<ViewStepView>, pending: PendingNavigationView },
}

impl View for TabRequest {
    type V = TabRequestView;

    open spec fn view(&self) -> TabRequestView {
        match self {
            TabRequest::Open => TabRequestView::Open,
            TabRequest::Redirect { id, steps, pending } => TabRequestView::Redirect {
                id: *id,
                steps: step_views(steps@),
                pending: pending@,
            },
        }
    }
}

/// The view of the answer to a request.
pub open spec fn request_view(r: Result<TabRequest, String>) -> Result<TabRequestView, Seq<char>> {
    match r {
        Ok(request) => Ok(request@),
        Err(message) => Err(message@),
    }
}

/// The tab at the front and the label of its web view, or why there is none.
pub open spec fn front_tab(state: TabsView) -> Result<(u64, Seq<char>), Seq<char>> {
    match (state.active_id, active_label(state)) {
        (None, _) => Err("There is no active tab."@),
        (Some(_), None) => Err("The active tab is no longer available."@),
        (Some(id), Some(label)) => Ok((id, label)),
    }
}

/// What follows from a popup link whose address has been parsed: the tab at the front goes there.
pub open spec fn redirection(state: TabsView, parsed: Result<AddressView, Seq<char>>) -> Result<
    TabRequestView,
    Seq<char>,
> {
    match popup_target(parsed) {
        Err(message) => Err(message),
        Ok((address, pending)) => match front_tab(state) {
            Err(message) => Err(message),
            Ok((id, label)) => Ok(
                TabRequestView::Redirect {
                    id,
                    steps: seq![ViewStepView::Navigate { label, url: address.text }],
                    pending,
                },
            ),
        },
    }
}

/// What follows from a request for a tab: without an address a new tab, with one a redirection.
pub open spec fn tab_request(state: TabsView, url: Option<String>) -> Result<TabRequestView, Seq<char>> {
    match url {
        None => Ok(TabRequestView::Open),
        Some(text) => redirection(state, parsed_address(text@)),
    }
}

impl TabManager {
    /// What follows from a popup link whose address has been parsed.
    pub fn redirect_popup(&self, parsed: Result<Address, String>) -> (r: Result<TabRequest, String>)
        ensures
            request_view(r) == redirection(self@, address_outcome(parsed)),
    {
        let (address, pending): (Address, PendingNavigation) = match popup_navigation(parsed) {
            Ok(target) => target,
            Err(message) => {
                return Err(message);
            },
        };
        let (id, label): (u64, String) = match self.active() {
            Ok(front) => front,
            Err(message) => {
                return Err(message);
            },
        };
        let steps: Vec<ViewStep> = vec![ViewStep::Navigate { label, url: address.text }];
        assert(step_views(steps@) =~= seq![ViewStepView::Navigate { label: label@, url: address@.text }]);
        Ok(TabRequest::Redirect { id, steps, pending })
    }

    /// What follows from a request for a tab. No tab is opened or closed for a popup link.
    pub fn create_tab(&self, url: Option<String>) -> (r: Result<TabRequest, String>)
        ensures
            request_view(r) == tab_request(self@, url),
    {
        match url {
            Some(text) => self.redirect_popup(parse_address(text.as_str())),
            None => Ok(TabRequest::Open),
        }
    }
}

/// A popup link that leads to the web is loaded in the tab at the front: that tab and no other is
/// sent to its address, and none is opened.
pub proof fn popup_loads_in_the_current_tab(state: TabsView, url: String, id: u64, label: Seq<char>)
    requires
        popup_target(parsed_address(url@)) is Ok,
        state.active_id == Some(id),
        active_label(state) == Some(label),
    ensures
        ({
            let (address, pending) = popup_target(parsed_address(url@))->Ok_0;
            &&& tab_request(state, Some(url)) == Ok::<TabRequestView, Seq<char>>(
                TabRequestView::Redirect {
                    id,
                    steps: seq![ViewStepView::Navigate { label, url: address.text }],
                    pending,
                },
            )
            &&& pending.target_url == address.text
            &&& pending.source == "popup"@
        }),
{
}

/// A request without an address opens a tab, whatever tabs there are; a popup never does. It is
/// refused where its address is none of the web or where no tab is at the front, and the reason is
/// told.
pub proof fn only_a_request_without_an_address_opens_a_tab(state: TabsView, url: String)
    ensures
        tab_request(state, None) == Ok::<TabRequestView, Seq<char>>(TabRequestView::Open),
        tab_request(state, Some(url)) != Ok::<TabRequestView, Seq<char>>(TabRequestView::Open),
        popup_target(parsed_address(url@)) matches Err(message) ==> tab_request(state, Some(url)) == Err::<
            TabRequestView,
            Seq<char>,
        >(message),
        popup_target(parsed_address(url@)) is Ok && state.active_id is None ==> tab_request(state, Some(url)) == Err::<
            TabRequestView,
            Seq<char>,
        >("There is no active tab."@),
{
}

/// Why no tab is at the front: none ever came there, or the one that did is gone.
pub proof fn missing_front_is_explained(state: TabsView, id: u64)
    ensures
        state.active_id is None ==> front_tab(state) == Err::<(u64, Seq<char>), Seq<char>>("There is no active tab."@),
        state.active_id == Some(id) && (forall|i: int| 0 <= i < state.tabs.len() ==> (#[trigger] state.tabs[i]).id != id)
            ==> front_tab(state) == Err::<(u64, Seq<char>), Seq<char>>("The active tab is no longer available."@),
{
    crate::tabs::place_is_first(state.tabs, id);
}

} // verus!
