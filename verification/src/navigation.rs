//! Where the browser goes: from what the user types to an address, and from the events of a web
//! view to the visits they belong to.

use crate::address::{
    address_outcome, address_with_pair, base_address, base_host, parse_address, parse_address_with_pair,
    parsed_address, plain_base, Address, AddressView,
};
use crate::history::{
    attempt_of, context_for, first_search, search_of, search_of_text, HistoryEntry, NavigationStatus,
    PendingNavigation, PendingNavigationView,
};
use crate::tabs::PLACEHOLDER_URL;
use crate::text::{
    chars_of, has_prefix, has_white_space, holds_char, holds_white_space, opt_text, same_text, starts_with, trim,
    trimmed, trimming_is_idempotent,
};
use std::collections::HashMap;
use vstd::prelude::*;

verus! {

broadcast use vstd::std_specs::hash::group_hash_axioms;

/// The page of the search engine, where a window starts and searches go.
pub const HOME_URL: &'static str = "https://duckduckgo.com/";

/// Whether a scheme is one of the web's.
pub open spec fn web_scheme(scheme: Seq<char>) -> bool {
    scheme == "http"@ || scheme == "https"@
}

/// Whether the scheme is one of the web's.
pub fn is_web_scheme(scheme: &str) -> (r: bool)
    ensures
        r == web_scheme(scheme@),
{
    same_text(scheme, "http") || same_text(scheme, "https")
}

/// The address that a typed text, without white space at its ends, may stand for: it has a web
/// scheme, or it is in one piece and has a dot or names the local host.
pub open spec fn direct_text(typed: Seq<char>) -> Option<Seq<char>> {
    if has_prefix(typed, "http://"@) || has_prefix(typed, "https://"@) {
        Some(typed)
    } else if !has_white_space(typed) && (typed.contains('.') || has_prefix(typed, "localhost"@)) {
        Some("https://"@ + typed)
    } else {
        None
    }
}

/// The address that a typed text leads to, and whether that is a search: the text itself if it is
/// an address, or else a search for it.
pub open spec fn destination(typed: Seq<char>) -> Result<(AddressView, bool), Seq<char>> {
    let search = match address_with_pair(HOME_URL@, "q"@, typed) {
        Ok(address) => Ok((address, true)),
        Err(message) => Err(message),
    };
    match direct_text(typed) {
        Some(text) => match parsed_address(text) {
            Ok(address) => Ok((address, false)),
            Err(_) => search,
        },
        None => search,
    }
}

/// What is remembered of a navigation to an address that was typed.
pub open spec fn typed_navigation(
    address: AddressView,
    typed: Seq<char>,
    source: Seq<char>,
    searched: bool,
) -> PendingNavigationView {
    PendingNavigationView {
        target_url: address.text,
        source,
        submitted_input: Some(typed),
        search_query: if searched {
            Some(typed)
        } else {
            None
        },
        search_url: if searched {
            Some(address.text)
        } else {
            None
        },
    }
}

/// The view of a target.
pub open spec fn target_view(r: Result<(Address, PendingNavigation), String>) -> Result<
    (AddressView, PendingNavigationView),
    Seq<char>,
> {
    match r {
        Ok((address, pending)) => Ok((address@, pending@)),
        Err(message) => Err(message@),
    }
}

/// The target of a typed text whose destination is known.
pub open spec fn typed_target(
    destination: Result<(AddressView, bool), Seq<char>>,
    typed: Seq<char>,
    source: Seq<char>,
) -> Result<(AddressView, PendingNavigationView), Seq<char>> {
    match destination {
        Err(message) => Err(message),
        Ok((address, searched)) => if web_scheme(address.scheme) {
            Ok((address, typed_navigation(address, typed, source, searched)))
        } else {
            Err("Only HTTP and HTTPS addresses are supported."@)
        },
    }
}

/// The target of what was typed.
pub open spec fn resolved(input: Seq<char>, source: Seq<char>) -> Result<
    (AddressView, PendingNavigationView),
    Seq<char>,
> {
    if trimmed(input).len() == 0 {
        Err("Enter an address or search term."@)
    } else {
        typed_target(destination(trimmed(input)), trimmed(input), source)
    }
}

/// The target of a typed text that leads to the given address, as a search or directly.
pub fn target_of(address: Address, typed: &str, source: &str, searched: bool) -> (r: Result<
    (Address, PendingNavigation),
    String,
>)
    ensures
        target_view(r) == typed_target(Ok((address@, searched)), typed@, source@),
{
    if !is_web_scheme(address.scheme.as_str()) {
        return Err("Only HTTP and HTTPS addresses are supported.".to_owned());
    }
    let pending: PendingNavigation = PendingNavigation {
        target_url: address.text.clone(),
        source: source.to_owned(),
        submitted_input: Some(typed.to_owned()),
        search_query: if searched {
            Some(typed.to_owned())
        } else {
            None
        },
        search_url: if searched {
            Some(address.text.clone())
        } else {
            None
        },
    };
    Ok((address, pending))
}

/// The address that the typed text may stand for.
pub fn direct_address(typed: &str) -> (r: Option<String>)
    ensures
        match r {
            Some(text) => direct_text(typed@) == Some(text@),
            None => direct_text(typed@) is None,
        },
{
    if starts_with(typed, "http://") || starts_with(typed, "https://") {
        Some(typed.to_owned())
    } else if !holds_white_space(typed) && (holds_char(typed, '.') || starts_with(typed, "localhost")) {
        let mut text: String = "https://".to_owned();
        text.append(typed);
        Some(text)
    } else {
        None
    }
}

/// The home page is written as it is read, and is the search engine's.
proof fn lemma_home()
    ensures
        plain_base(HOME_URL@),
        base_host(HOME_URL@) == "duckduckgo.com"@,
        !HOME_URL@.contains('#'),
{
    reveal_strlit("https://duckduckgo.com/");
    reveal_strlit("https://");
    reveal_strlit("duckduckgo.com");
    assert(HOME_URL@.take(8) =~= "https://"@);
    assert(base_host(HOME_URL@) =~= "duckduckgo.com"@);
}

/// The target of what was typed. Only a blank text has none. The address of a search carries the
/// typed text, and its written form reads back as that search.
pub fn resolve_input(input: &str, source: &str) -> (r: Result<(Address, PendingNavigation), String>)
    ensures
        target_view(r) == resolved(input@, source@),
        r is Err <==> trimmed(input@).len() == 0,
        match r {
            Ok((address, pending)) => pending@.search_query matches Some(words) ==> {
                &&& words == trimmed(input@)
                &&& search_of(address@) == Some(words)
                &&& search_of_text(pending@.target_url) == Some(words)
            },
            Err(_) => true,
        },
        (has_prefix(trimmed(input@), "http://"@) || has_prefix(trimmed(input@), "https://"@)) && parsed_address(
            trimmed(input@),
        ) is Ok ==> leads_directly(target_view(r), parsed_address(trimmed(input@))->Ok_0, trimmed(input@), source@),
        (trimmed(input@).contains('.') || has_prefix(trimmed(input@), "localhost"@)) && !has_white_space(trimmed(input@))
            && !has_prefix(trimmed(input@), "http://"@) && !has_prefix(trimmed(input@), "https://"@) && parsed_address(
            "https://"@ + trimmed(input@),
        ) is Ok ==> leads_directly(
            target_view(r),
            parsed_address("https://"@ + trimmed(input@))->Ok_0,
            trimmed(input@),
            source@,
        ),
{
    let typed: String = trim(input);
    if typed.as_str().is_empty() {
        proof {
            reveal_strlit("http://");
            reveal_strlit("https://");
            reveal_strlit("localhost");
        }
        return Err("Enter an address or search term.".to_owned());
    }
    match direct_address(typed.as_str()) {
        Some(text) => {
            match parse_address(text.as_str()) {
                Ok(address) => {
                    proof {
                        lemma_direct_has_web_scheme(typed@);
                    }
                    return target_of(address, typed.as_str(), source, false);
                },
                Err(_) => {},
            }
        },
        None => {},
    }
    proof {
        lemma_home();
        trimming_is_idempotent(input@);
    }
    match parse_address_with_pair(HOME_URL, "q", typed.as_str()) {
        Ok(address) => {
            proof {
                lemma_search(address@.pairs, typed@);
            }
            target_of(address, typed.as_str(), source, true)
        },
        Err(message) => Err(message),
    }
}

/// A text that is taken for an address begins with a scheme of the web.
proof fn lemma_direct_has_web_scheme(typed: Seq<char>)
    ensures
        direct_text(typed) matches Some(text) ==> has_prefix(text, "http://"@) || has_prefix(text, "https://"@),
{
    match direct_text(typed) {
        Some(text) => {
            assert(("https://"@ + typed).take("https://"@.len() as int) =~= "https://"@);
        },
        None => {},
    }
}

/// A query whose one pair is a search carries that search.
proof fn lemma_search(pairs: Seq<(Seq<char>, Seq<char>)>, typed: Seq<char>)
    requires
        trimmed(typed).len() > 0,
    ensures
        pairs.len() == 1 && pairs[0] == ("q"@, typed) ==> first_search(pairs) == Some(typed),
{
}

/// The target of a page that asks for a window of its own.
pub open spec fn popup_target(parsed: Result<AddressView, Seq<char>>) -> Result<
    (AddressView, PendingNavigationView),
    Seq<char>,
> {
    match parsed {
        Err(message) => Err(message),
        Ok(address) => if web_scheme(address.scheme) {
            Ok(
                (
                    address,
                    PendingNavigationView {
                        target_url: address.text,
                        source: "popup"@,
                        submitted_input: None,
                        search_query: None,
                        search_url: None,
                    },
                ),
            )
        } else {
            Err("Only HTTP and HTTPS popup addresses are supported."@)
        },
    }
}

/// The target of a page that asks for a window of its own at a parsed address.
pub fn popup_navigation(parsed: Result<Address, String>) -> (r: Result<(Address, PendingNavigation), String>)
    ensures
        target_view(r) == popup_target(address_outcome(parsed)),
{
    match parsed {
        Ok(address) => {
            if !is_web_scheme(address.scheme.as_str()) {
                return Err("Only HTTP and HTTPS popup addresses are supported.".to_owned());
            }
            let pending: PendingNavigation = PendingNavigation {
                target_url: address.text.clone(),
                source: "popup".to_owned(),
                submitted_input: None,
                search_query: None,
                search_url: None,
            };
            Ok((address, pending))
        },
        Err(message) => Err(message),
    }
}

/// What is remembered of a navigation to the home page.
pub open spec fn home_view() -> PendingNavigationView {
    PendingNavigationView {
        target_url: HOME_URL@,
        source: "home"@,
        submitted_input: None,
        search_query: None,
        search_url: None,
    }
}

/// The home page as a target.
pub fn navigate_home() -> (r: Result<(Address, PendingNavigation), String>)
    ensures
        target_view(r) == Ok::<(AddressView, PendingNavigationView), Seq<char>>(
            (base_address(HOME_URL@), home_view()),
        ),
{
    proof {
        lemma_home();
    }
    match parse_address(HOME_URL) {
        Ok(address) => {
            let pending: PendingNavigation = PendingNavigation {
                target_url: HOME_URL.to_owned(),
                source: "home".to_owned(),
                submitted_input: None,
                search_query: None,
                search_url: None,
            };
            Ok((address, pending))
        },
        Err(message) => Err(message),
    }
}

/// What is recorded as the source of a navigation.
pub open spec fn known_source(source: Seq<char>) -> Seq<char> {
    if source == "address"@ || source == "history"@ || source == "popup"@ || source == "home"@ {
        source
    } else {
        "other"@
    }
}

/// What is recorded as the source of a navigation.
pub fn navigation_source(source: String) -> (r: String)
    ensures
        r@ == known_source(source@),
{
    let text: &str = source.as_str();
    if same_text(text, "address") || same_text(text, "history") || same_text(text, "popup") || same_text(text, "home") {
        source
    } else {
        "other".to_owned()
    }
}

/// The target of what was typed, with its source.
pub fn navigate(input: &str, source: String) -> (r: Result<(Address, PendingNavigation), String>)
    ensures
        target_view(r) == resolved(input@, known_source(source@)),
        target_view(r) == navigation_target(input@, source@),
        r is Err <==> trimmed(input@).len() == 0,
{
    let known: String = navigation_source(source);
    resolve_input(input, known.as_str())
}

/// Whether a web view may go to an address: to the web, or to the blank page that a tab starts
/// with.
pub fn allows_navigation(scheme: &str, path: &str) -> (r: bool)
    ensures
        r == (web_scheme(scheme@) || (path@ == "/blank.html"@ && (scheme@ == "tauri"@ || scheme@ == "asset"@))),
        r == may_go(scheme@, path@),
{
    is_web_scheme(scheme) || (same_text(path, "/blank.html") && (same_text(scheme, "tauri") || same_text(
        scheme,
        "asset",
    )))
}

/// The address that is shown for the one that a web view is at: none for a page that a tab
/// starts with.
pub fn current_url(url: &str, path: &str) -> (r: String)
    ensures
        r@ == if url@ == PLACEHOLDER_URL@ || path@ == "/blank.html"@ {
            Seq::empty()
        } else {
            url@
        },
        r@ == shown_url(url@, path@),
{
    if same_text(url, PLACEHOLDER_URL) || same_text(path, "/blank.html") {
        let r: String = String::new();
        assert(r@ =~= Seq::empty());
        r
    } else {
        url.to_owned()
    }
}

/// `s` up to its first colon, or whole if it has none.
pub open spec fn before_colon(s: Seq<char>) -> Seq<char>
    decreases s.len(),
{
    if s.len() == 0 || s[0] == ':' {
        Seq::empty()
    } else {
        seq![s[0]] + before_colon(s.skip(1))
    }
}

/// The text up to its first colon, or whole if it has none.
pub fn scheme_part(url: &str) -> (r: String)
    ensures
        r@ == before_colon(url@),
{
    let chars: Vec<char> = chars_of(url);
    let mut r: String = String::new();
    let mut i: usize = 0;
    assert(url@.skip(0) =~= url@);
    assert(r@ + before_colon(url@.skip(0)) =~= before_colon(url@));
    while i < chars.len() && chars[i] != ':'
        invariant
            i <= chars@.len(),
            chars@ == url@,
            r@ + before_colon(url@.skip(i as int)) == before_colon(url@),
        decreases chars@.len() - i,
    {
        let ghost shown = r@;
        let ghost rest = url@.skip(i as int);
        r.push(chars[i]);
        i = i + 1;
        assert(rest.skip(1) =~= url@.skip(i as int));
        assert(r@ + before_colon(url@.skip(i as int)) =~= shown + before_colon(rest));
    }
    assert(before_colon(url@.skip(i as int)) =~= Seq::empty());
    assert(r@ =~= before_colon(url@));
    r
}

/// The visit that a navigation of a web view belongs to.
#[derive(Debug)]
pub struct TrackedNavigation {
    pub entry_id: u64,
    pub url: String,
}

/// A followed navigation with its text as a sequence of characters.
#[verifier::ext_equal]
pub struct TrackedView {
    pub entry_id: u64,
    pub url: Seq<char>,
}

impl View for TrackedNavigation {
    type V = TrackedView;

    open spec fn view(&self) -> TrackedView {
        TrackedView { entry_id: self.entry_id, url: self.url@ }
    }
}

impl Clone for TrackedNavigation {
    fn clone(&self) -> (r: TrackedNavigation)
        ensures
            r@ == self@,
    {
        TrackedNavigation { entry_id: self.entry_id, url: self.url.clone() }
    }
}

/// The view of an optional followed navigation.
pub open spec fn tracked_view(o: Option<TrackedNavigation>) -> Option<TrackedView> {
    match o {
        Some(visit) => Some(visit@),
        None => None,
    }
}

/// The navigations of one web view that belong to visits: those that are not done, by the
/// number that the web view gives them, and the newest.
pub struct NavigationTracker {
    pub by_navigation_id: HashMap<u64, TrackedNavigation>,
    pub current: Option<TrackedNavigation>,
}

/// The followed navigations as a map.
#[verifier::ext_equal]
pub struct TrackerView {
    pub by_navigation_id: Map<u64, TrackedView>,
    pub current: Option<TrackedView>,
}

impl View for NavigationTracker {
    type V = TrackerView;

    open spec fn view(&self) -> TrackerView {
        TrackerView {
            by_navigation_id: self.by_navigation_id@.map_values(|visit: TrackedNavigation| visit@),
            current: tracked_view(self.current),
        }
    }
}

/// The visit that a navigation belongs to.
pub open spec fn visit_of(tracker: TrackerView, navigation_id: u64) -> Option<TrackedView> {
    if tracker.by_navigation_id.contains_key(navigation_id) {
        Some(tracker.by_navigation_id[navigation_id])
    } else {
        None
    }
}

/// The tracker once it follows a navigation.
pub open spec fn tracking(tracker: TrackerView, navigation_id: u64, visit: TrackedView) -> TrackerView {
    TrackerView {
        by_navigation_id: tracker.by_navigation_id.insert(navigation_id, visit),
        current: Some(visit),
    }
}

/// The tracker after a navigation is done.
pub open spec fn done(tracker: TrackerView, navigation_id: u64) -> TrackerView {
    TrackerView { by_navigation_id: tracker.by_navigation_id.remove(navigation_id), ..tracker }
}

/// What the window is told of a visit.
#[derive(Debug)]
pub struct NavigationEvent {
    pub tab_id: u64,
    pub url: String,
    pub status: NavigationStatus,
    pub title: Option<String>,
}

impl NavigationTracker {
    /// No navigation is followed.
    pub fn new() -> (r: NavigationTracker)
        ensures
            r@ == (TrackerView { by_navigation_id: Map::empty(), current: None }),
    {
        let r: NavigationTracker = NavigationTracker { by_navigation_id: HashMap::new(), current: None };
        assert(r@.by_navigation_id =~= Map::empty());
        r
    }

    /// Makes a navigation belong to a visit.
    pub fn track(&mut self, navigation_id: u64, entry: &HistoryEntry)
        ensures
            final(self)@ == tracking(
                old(self)@,
                navigation_id,
                TrackedView { entry_id: entry@.id, url: entry@.url },
            ),
    {
        let ghost before = self@;
        let visit: TrackedNavigation = TrackedNavigation { entry_id: entry.id, url: entry.url.clone() };
        self.by_navigation_id.insert(navigation_id, visit.clone());
        assert(self@.by_navigation_id =~= before.by_navigation_id.insert(navigation_id, visit@));
        self.current = Some(visit);
    }

    /// The visit that a navigation belongs to.
    pub fn get(&self, navigation_id: u64) -> (r: Option<TrackedNavigation>)
        ensures
            tracked_view(r) == visit_of(self@, navigation_id),
    {
        match self.by_navigation_id.get(&navigation_id) {
            Some(visit) => Some(visit.clone()),
            None => None,
        }
    }

    /// The visit that a navigation belonged to, which is done now.
    pub fn finish(&mut self, navigation_id: u64) -> (r: Option<TrackedNavigation>)
        ensures
            tracked_view(r) == visit_of(old(self)@, navigation_id),
            final(self)@ == done(old(self)@, navigation_id),
    {
        let ghost before = self@;
        let visit: Option<TrackedNavigation> = self.by_navigation_id.remove(&navigation_id);
        assert(self@.by_navigation_id =~= before.by_navigation_id.remove(navigation_id));
        visit
    }

    /// The visit whose content begins to load, and how far it has come.
    pub fn content_loading(&self, navigation_id: u64) -> (r: Option<(TrackedNavigation, NavigationStatus)>)
        ensures
            match r {
                Some((visit, status)) => {
                    &&& visit_of(self@, navigation_id) == Some(visit@)
                    &&& status == NavigationStatus::Started
                    &&& status == status_on_loading()
                },
                None => visit_of(self@, navigation_id) is None,
            },
    {
        match self.get(navigation_id) {
            Some(visit) => Some((visit, NavigationStatus::Started)),
            None => None,
        }
    }

    /// The visit that is complete, and how far it has come.
    pub fn navigation_completed(&mut self, navigation_id: u64) -> (r: Option<(TrackedNavigation, NavigationStatus)>)
        ensures
            final(self)@ == done(old(self)@, navigation_id),
            match r {
                Some((visit, status)) => {
                    &&& visit_of(old(self)@, navigation_id) == Some(visit@)
                    &&& status == NavigationStatus::Completed
                    &&& status == status_on_completion()
                },
                None => visit_of(old(self)@, navigation_id) is None,
            },
    {
        match self.finish(navigation_id) {
            Some(visit) => Some((visit, NavigationStatus::Completed)),
            None => None,
        }
    }

    /// The visit that the title of the page belongs to.
    pub fn current(&self) -> (r: Option<TrackedNavigation>)
        ensures
            tracked_view(r) == self@.current,
    {
        match &self.current {
            Some(visit) => Some(visit.clone()),
            None => None,
        }
    }

    /// A navigation has started and its visit has been recorded. Only those to the web have
    /// events that matter later.
    pub fn started(&mut self, navigation_id: u64, entry: &HistoryEntry)
        ensures
            final(self)@ == if web_scheme(before_colon(entry@.url)) {
                tracking(old(self)@, navigation_id, TrackedView { entry_id: entry@.id, url: entry@.url })
            } else {
                old(self)@
            },
            final(self)@ == with_started(old(self)@, navigation_id, entry@.id, entry@.url),
    {
        if is_web_scheme(scheme_part(entry.url.as_str()).as_str()) {
            self.track(navigation_id, entry);
        }
    }
}

/// Whether a navigation that starts is recorded: the blank page is not.
pub fn is_recorded(url: &str) -> (r: bool)
    ensures
        r == (url@ != PLACEHOLDER_URL@),
        r == recorded_start(url@),
{
    !same_text(url, PLACEHOLDER_URL)
}

/// What the window is told when a visit has been recorded.
pub fn attempt_event(tab_id: u64, entry: &HistoryEntry) -> (r: NavigationEvent)
    ensures
        r.tab_id == tab_id,
        r.url@ == entry@.url,
        r.status == entry@.status,
        opt_text(r.title) == entry@.title,
{
    NavigationEvent {
        tab_id,
        url: entry.url.clone(),
        status: entry.status,
        title: entry.title.clone(),
    }
}

/// What the window is told when a visit has come further.
pub fn progress_event(tab_id: u64, visit: &TrackedNavigation, status: NavigationStatus) -> (r: NavigationEvent)
    ensures
        r.tab_id == tab_id,
        r.url@ == visit@.url,
        r.status == status,
        r.title is None,
{
    NavigationEvent { tab_id, url: visit.url.clone(), status, title: None }
}

/// Whether a page is still loading when a visit has come so far.
pub fn is_loading(status: NavigationStatus) -> (r: bool)
    ensures
        r == (status != NavigationStatus::Completed),
        r == loading_at(status),
{
    status != NavigationStatus::Completed
}

/// The events of a navigation reach its own visit until it is done, whatever else is followed
/// or done meanwhile, and none after that.
pub proof fn events_reach_their_visit(
    tracker: TrackerView,
    navigation_id: u64,
    visit: TrackedView,
    other_id: u64,
    other: TrackedView,
)
    requires
        other_id != navigation_id,
    ensures
        visit_of(tracking(tracker, navigation_id, visit), navigation_id) == Some(visit),
        visit_of(tracking(tracking(tracker, navigation_id, visit), other_id, other), navigation_id) == Some(visit),
        visit_of(done(tracking(tracker, navigation_id, visit), other_id), navigation_id) == Some(visit),
        visit_of(done(tracker, navigation_id), navigation_id) is None,
        done(tracker, navigation_id).current == tracker.current,
{
}

/// Wherever a typed text leads, it leads to the web, and a search is remembered with its exact
/// words and its address.
pub proof fn typed_text_leads_to_the_web(input: Seq<char>, source: Seq<char>)
    ensures
        match resolved(input, source) {
            Ok((address, pending)) => {
                &&& web_scheme(address.scheme)
                &&& pending.target_url == address.text
                &&& pending.source == source
                &&& pending.submitted_input == Some(trimmed(input))
                &&& pending.search_query is Some <==> pending.search_url is Some
                &&& pending.search_query is Some ==> pending.search_query == Some(trimmed(input))
                    && pending.search_url == Some(address.text)
                &&& direct_text(trimmed(input)) is None ==> pending.search_query is Some
            },
            Err(_) => true,
        },
        resolved(trimmed(input), source) == resolved(input, source),
{
    trimming_is_idempotent(input);
}

/// Once a typed text has been resolved and its address is attempted, the ledger holds the exact
/// words that were typed, and for a search its words and its address as well.
pub proof fn typed_text_is_recorded_exactly(input: Seq<char>, source: Seq<char>, detected: Option<Seq<char>>, now: u64)
    requires
        resolved(input, source) is Ok,
    ensures
        ({
            let (address, pending) = resolved(input, source)->Ok_0;
            let entry = attempt_of(context_for(Some(pending), address.text), detected, address.text, now);
            &&& entry.url == address.text
            &&& entry.source == source
            &&& entry.submitted_input == Some(trimmed(input))
            &&& pending.search_query is Some ==> entry.search_query == Some(trimmed(input)) && entry.search_url == Some(
                address.text,
            )
        }),
{
}

/// A search that is submitted on the search engine's own page is recorded with its exact words and
/// its address as well.
pub proof fn page_search_is_recorded_exactly(url: Seq<char>, words: Seq<char>, now: u64)
    requires
        search_of_text(url) == Some(words),
    ensures
        ({
            let entry = attempt_of(context_for(None, url), search_of_text(url), url, now);
            &&& entry.source == "duckduckgo"@
            &&& entry.submitted_input == Some(words)
            &&& entry.search_query == Some(words)
            &&& entry.search_url == Some(url)
        }),
{
}

/// The outcome of a text that leads to an address directly: it is remembered with what was typed
/// and without a search.
pub open spec fn leads_directly(
    outcome: Result<(AddressView, PendingNavigationView), Seq<char>>,
    address: AddressView,
    typed: Seq<char>,
    source: Seq<char>,
) -> bool {
    &&& outcome matches Ok((target, pending))
    &&& target == address
    &&& pending.target_url == address.text
    &&& pending.source == source
    &&& pending.submitted_input == Some(typed)
    &&& pending.search_query is None && pending.search_url is None
}

/// A text that begins with `http://` or `https://` and is an address of the web is taken as it is:
/// the browser goes to exactly that address and searches for nothing.
pub proof fn address_with_a_scheme_is_taken_as_it_is(
    input: Seq<char>,
    typed: Seq<char>,
    source: Seq<char>,
    address: AddressView,
)
    requires
        typed == trimmed(input),
        exists|rest: Seq<char>| typed == "http://"@ + rest || typed == "https://"@ + rest,
        parsed_address(typed) == Ok::<AddressView, Seq<char>>(address),
        address.scheme == "http"@ || address.scheme == "https"@,
    ensures
        leads_directly(resolved(input, source), address, typed, source),
{
    reveal_strlit("http://");
    reveal_strlit("https://");
    let rest = choose|rest: Seq<char>| typed == "http://"@ + rest || typed == "https://"@ + rest;
    crate::text::prefix_is_a_beginning(typed, "http://"@, rest);
    crate::text::prefix_is_a_beginning(typed, "https://"@, rest);
    assert(typed.len() > 0);
}

/// A text in one piece that has no scheme of the web, but a dot or `localhost` at its start, is
/// reached over HTTPS: the browser goes to the address that `https://` and the text make.
pub proof fn address_without_a_scheme_is_reached_securely(
    input: Seq<char>,
    typed: Seq<char>,
    source: Seq<char>,
    address: AddressView,
)
    requires
        typed == trimmed(input),
        typed.len() > 0,
        !has_prefix(typed, "http://"@) && !has_prefix(typed, "https://"@),
        forall|i: int| 0 <= i < typed.len() ==> !crate::text::white_space(#[trigger] typed[i]),
        typed.contains('.') || exists|rest: Seq<char>| typed == "localhost"@ + rest,
        parsed_address("https://"@ + typed) == Ok::<AddressView, Seq<char>>(address),
        address.scheme == "http"@ || address.scheme == "https"@,
    ensures
        leads_directly(resolved(input, source), address, typed, source),
{
    if !typed.contains('.') {
        let rest = choose|rest: Seq<char>| typed == "localhost"@ + rest;
        crate::text::prefix_is_a_beginning(typed, "localhost"@, rest);
    }
}

/// Everything else is searched for: a text with white space in it and no scheme, one in one piece
/// with neither a scheme nor a dot nor `localhost` at its start, and one that looks like an address
/// and is none. The search goes to DuckDuckGo with the typed text as its words, and is remembered
/// with them and with its address.
pub proof fn other_text_is_searched_for(input: Seq<char>, typed: Seq<char>, source: Seq<char>, address: AddressView)
    requires
        typed == trimmed(input),
        typed.len() > 0,
        ({
            let web = has_prefix(typed, "http://"@) || has_prefix(typed, "https://"@);
            ||| !web && has_white_space(typed)
            ||| !web && !typed.contains('.') && !has_prefix(typed, "localhost"@)
            ||| web && parsed_address(typed) is Err
            ||| !web && parsed_address("https://"@ + typed) is Err
        }),
        address_with_pair("https://duckduckgo.com/"@, "q"@, typed) == Ok::<AddressView, Seq<char>>(address),
        address.scheme == "https"@,
    ensures
        resolved(input, source) matches Ok((target, pending)) && {
            &&& target == address
            &&& pending.target_url == address.text
            &&& pending.source == source
            &&& pending.submitted_input == Some(typed)
            &&& pending.search_query == Some(typed)
            &&& pending.search_url == Some(address.text)
        },
{
}

/// A blank text leads nowhere.
pub proof fn blank_text_is_refused(input: Seq<char>, source: Seq<char>)
    requires
        crate::text::blank(input),
    ensures
        resolved(input, source) == Err::<(AddressView, PendingNavigationView), Seq<char>>(
            "Enter an address or search term."@,
        ),
{
    crate::text::trimming_takes_the_ends(input, Seq::empty(), Seq::empty());
    assert(input + Seq::<char>::empty() + Seq::<char>::empty() =~= input);
}

/// A popup goes to the address that it names and to no other, on the web alone, and is remembered
/// as a popup that nobody typed.
pub proof fn popup_goes_where_it_says(address: AddressView)
    ensures
        match popup_target(Ok(address)) {
            Ok((target, pending)) => {
                &&& address.scheme == "http"@ || address.scheme == "https"@
                &&& target == address
                &&& pending.target_url == address.text
                &&& pending.source == "popup"@
                &&& pending.submitted_input is None
                &&& pending.search_query is None && pending.search_url is None
            },
            Err(message) => {
                &&& address.scheme != "http"@ && address.scheme != "https"@
                &&& message == "Only HTTP and HTTPS popup addresses are supported."@
            },
        },
{
}

/// The home page is DuckDuckGo's, and going there is remembered as that and as no search.
pub proof fn home_is_the_search_page()
    ensures
        home_view().target_url == "https://duckduckgo.com/"@,
        home_view().source == "home"@,
        home_view().submitted_input is None,
        home_view().search_query is None && home_view().search_url is None,
{
}

/// The sources that the browser names are recorded under their names, and any other as `other`.
pub proof fn known_sources_keep_their_names(source: Seq<char>)
    ensures
        known_source("address"@) == "address"@,
        known_source("history"@) == "history"@,
        known_source("popup"@) == "popup"@,
        known_source("home"@) == "home"@,
        source != "address"@ && source != "history"@ && source != "popup"@ && source != "home"@ ==> known_source(source)
            == "other"@,
        known_source(known_source(source)) == known_source(source),
{
}

/// Whether a web view may go to an address.
pub open spec fn may_go(scheme: Seq<char>, path: Seq<char>) -> bool {
    web_scheme(scheme) || (path == "/blank.html"@ && (scheme == "tauri"@ || scheme == "asset"@))
}

/// A web view goes anywhere on the web, and off it only to the blank page that comes with the
/// browser.
pub proof fn pages_stay_on_the_web(scheme: Seq<char>, path: Seq<char>)
    ensures
        may_go("http"@, path) && may_go("https"@, path),
        may_go("tauri"@, "/blank.html"@) && may_go("asset"@, "/blank.html"@),
        may_go(scheme, path) && scheme != "http"@ && scheme != "https"@ ==> path == "/blank.html"@ && (scheme == "tauri"@
            || scheme == "asset"@),
{
}

/// The address that is shown for the one that a web view is at.
pub open spec fn shown_url(url: Seq<char>, path: Seq<char>) -> Seq<char> {
    if url == PLACEHOLDER_URL@ || path == "/blank.html"@ {
        Seq::empty()
    } else {
        url
    }
}

/// The blank pages are shown as nothing and every other page under its own address.
pub proof fn blank_pages_have_no_address(url: Seq<char>, path: Seq<char>)
    ensures
        shown_url("about:blank"@, path) == Seq::<char>::empty(),
        shown_url(url, "/blank.html"@) == Seq::<char>::empty(),
        url != "about:blank"@ && path != "/blank.html"@ ==> shown_url(url, path) == url,
{
}

/// What stands before the first colon is what it is, whatever follows the colon; a text without a
/// colon is taken whole.
pub proof fn scheme_stands_before_the_colon(scheme: Seq<char>, rest: Seq<char>)
    requires
        !scheme.contains(':'),
    ensures
        before_colon(scheme + seq![':'] + rest) == scheme,
        before_colon(scheme) == scheme,
    decreases scheme.len(),
{
    let s = scheme + seq![':'] + rest;
    if scheme.len() == 0 {
        assert(s[0] == ':');
        assert(scheme =~= Seq::empty());
    } else {
        assert(scheme[0] != ':');
        let tail = scheme.skip(1);
        assert(!tail.contains(':')) by {
            if tail.contains(':') {
                let k = choose|k: int| 0 <= k < tail.len() && tail[k] == ':';
                assert(scheme[k + 1] == ':');
            }
        }
        scheme_stands_before_the_colon(tail, rest);
        assert(s.skip(1) =~= tail + seq![':'] + rest);
        assert(seq![scheme[0]] + tail =~= scheme);
    }
}

/// The tracker once a navigation has started and its visit has been recorded.
pub open spec fn with_started(tracker: TrackerView, navigation_id: u64, entry_id: u64, url: Seq<char>) -> TrackerView {
    if web_scheme(before_colon(url)) {
        tracking(tracker, navigation_id, TrackedView { entry_id, url })
    } else {
        tracker
    }
}

/// A recorded navigation to the web is followed: its events reach its entry, and it is the one that
/// titles go to. One that leaves the web is not followed.
pub proof fn web_navigation_is_followed(
    tracker: TrackerView,
    navigation_id: u64,
    entry_id: u64,
    scheme: Seq<char>,
    rest: Seq<char>,
)
    requires
        !scheme.contains(':'),
    ensures
        ({
            let url = scheme + seq![':'] + rest;
            let after = with_started(tracker, navigation_id, entry_id, url);
            &&& scheme == "http"@ || scheme == "https"@ ==> {
                &&& visit_of(after, navigation_id) == Some(TrackedView { entry_id, url })
                &&& after.current == Some(TrackedView { entry_id, url })
            }
            &&& scheme != "http"@ && scheme != "https"@ ==> after == tracker
        }),
{
    scheme_stands_before_the_colon(scheme, rest);
}

/// What a visit has come to when its content loads.
pub open spec fn status_on_loading() -> NavigationStatus {
    NavigationStatus::Started
}

/// What a visit has come to when its navigation is complete.
pub open spec fn status_on_completion() -> NavigationStatus {
    NavigationStatus::Completed
}

/// A visit whose content loads has started and is still loading; one whose navigation is complete
/// is recorded as such and loads no more.
pub proof fn visits_start_and_complete()
    ensures
        status_on_loading().name() == "started"@,
        status_on_completion().name() == "completed"@,
        loading_at(status_on_loading()) && loading_at(NavigationStatus::Attempted),
        !loading_at(status_on_completion()),
{
}

/// Whether a page is still loading when a visit has come so far.
pub open spec fn loading_at(status: NavigationStatus) -> bool {
    status != NavigationStatus::Completed
}

/// Whether a navigation that starts is recorded.
pub open spec fn recorded_start(url: Seq<char>) -> bool {
    url != PLACEHOLDER_URL@
}

/// Every navigation is recorded but the one to the blank page.
pub proof fn every_navigation_is_recorded(url: Seq<char>)
    ensures
        recorded_start(url) <==> url != "about:blank"@,
{
}

/// Where a typed text leads off the web it is refused, and nowhere else it is: whatever address is
/// reached, it is the given one and has a scheme of the web.
pub proof fn target_is_on_the_web(address: AddressView, searched: bool, typed: Seq<char>, source: Seq<char>)
    ensures
        match typed_target(Ok((address, searched)), typed, source) {
            Ok((target, pending)) => {
                &&& address.scheme == "http"@ || address.scheme == "https"@
                &&& target == address
                &&& pending.target_url == address.text && pending.source == source
                &&& pending.submitted_input == Some(typed)
                &&& pending.search_query == if searched {
                    Some(typed)
                } else {
                    None
                }
                &&& pending.search_url == if searched {
                    Some(address.text)
                } else {
                    None
                }
            },
            Err(message) => {
                &&& address.scheme != "http"@ && address.scheme != "https"@
                &&& message == "Only HTTP and HTTPS addresses are supported."@
            },
        },
{
}

/// The target of what was typed, whose source is recorded under a name that is known.
pub open spec fn navigation_target(input: Seq<char>, source: Seq<char>) -> Result<
    (AddressView, PendingNavigationView),
    Seq<char>,
> {
    resolved(input, known_source(source))
}

/// Where a navigation leads does not depend on its source, and the source under which it is remembered
/// is one of those that are known.
pub proof fn source_is_remembered_under_a_known_name(input: Seq<char>, source: Seq<char>, other: Seq<char>)
    ensures
        match (navigation_target(input, source), navigation_target(input, other)) {
            (Ok((a, first)), Ok((b, second))) => {
                &&& a == b
                &&& first.target_url == second.target_url && first.search_query == second.search_query
                &&& first.source == "address"@ || first.source == "history"@ || first.source == "popup"@ || first.source
                    == "home"@ || first.source == "other"@
                &&& source == "address"@ || source == "history"@ || source == "popup"@ || source == "home"@
                    ==> first.source == source
            },
            (Err(a), Err(b)) => a == b,
            _ => false,
        },
{
}

} // verus!
