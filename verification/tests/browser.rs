use folio_browser::address::Address;
use folio_browser::history::{duckduckgo_search_query, HistoryStore, NavigationStatus};
use folio_browser::icon::IconBuffer;
use folio_browser::navigation::{
    allows_navigation, attempt_event, current_url, direct_address, is_loading, is_recorded, navigate,
    navigate_home, popup_navigation, progress_event, resolve_input, scheme_part, target_of, NavigationTracker,
};
use folio_browser::popup::TabRequest;
use folio_browser::tabs::{address_title, display_url_title, TabManager};
use folio_browser::views::{visibility_steps, ViewStep};
use folio_browser::window::{hidden_label, shortcut, start_title, window_title, CloseStep};

fn opened(count: usize) -> TabManager {
    let mut tabs = TabManager::new("Work".to_owned());
    for _ in 0..count {
        tabs.reserve();
    }
    tabs
}

fn ids(tabs: &TabManager) -> Vec<u64> {
    tabs.tabs.iter().map(|tab| tab.id).collect()
}

fn address(scheme: &str, host: Option<&str>) -> Address {
    Address {
        text: "the:text".to_owned(),
        scheme: scheme.to_owned(),
        host: host.map(str::to_owned),
        path: "/".to_owned(),
        pairs: Vec::new(),
    }
}

#[test]
fn resolves_plain_text_as_search_with_exact_details() {
    let (url, pending) = resolve_input("rust webview2 history", "address").unwrap();
    assert_eq!(pending.submitted_input.as_deref(), Some("rust webview2 history"));
    assert_eq!(pending.search_query.as_deref(), Some("rust webview2 history"));
    assert_eq!(pending.search_url.as_deref(), Some(url.text.as_str()));
    assert!(url.text.starts_with("https://duckduckgo.com/"));
}

#[test]
fn resolves_domain_as_https_address() {
    let (url, pending) = resolve_input("example.com/path", "address").unwrap();
    assert_eq!(url.text, "https://example.com/path");
    assert!(pending.search_query.is_none());
}

#[test]
fn resolves_what_is_typed() {
    let target = |input: &str| resolve_input(input, "address").unwrap().0.text;
    assert_eq!(target("rust"), "https://duckduckgo.com/?q=rust");
    assert_eq!(target("  a & b "), "https://duckduckgo.com/?q=a+%26+b");
    assert_eq!(target("localhost:8080"), "https://localhost:8080/");
    assert_eq!(target("http://example.com"), "http://example.com/");
    assert_eq!(target("what is example.com"), "https://duckduckgo.com/?q=what+is+example.com");
    assert_eq!(target("https://"), "https://duckduckgo.com/?q=https%3A%2F%2F");
    assert_eq!(resolve_input(" \u{3000}\n", "address").unwrap_err(), "Enter an address or search term.");
    assert_eq!(direct_address("a.b").as_deref(), Some("https://a.b"));
    assert_eq!(direct_address("ftp"), None);
}

#[test]
fn a_search_reads_back_from_its_address() {
    let (url, pending) = resolve_input("  50% + \"x\" ", "address").unwrap();
    assert_eq!(url.pairs, [("q".to_owned(), "50% + \"x\"".to_owned())]);
    let mut history = HistoryStore::open();
    let target = pending.target_url.clone();
    history.set_pending(pending);
    let entry = history.record_attempt(&target, 1).unwrap();
    assert_eq!(entry.search_query.as_deref(), Some("50% + \"x\""));
    let seen = history.record_attempt(&target, 2).unwrap();
    assert_eq!((seen.source.as_str(), seen.search_query.as_deref()), ("duckduckgo", Some("50% + \"x\"")));
}

#[test]
fn every_text_leads_somewhere_and_keeps_its_search() {
    for input in ["a b", "?q=x", "https://", "http://[", "50%", "ftp://x y", "\u{e9}t\u{e9}", "&=#", "mailto:x"] {
        let (_, pending) = resolve_input(input, "address").unwrap();
        assert_eq!(duckduckgo_search_query(&pending.target_url), pending.search_query);
        assert_eq!(pending.search_query.as_deref(), Some(input));
    }
    for blank in ["", " ", "\t\n"] {
        assert!(resolve_input(blank, "address").is_err());
    }
}

#[test]
fn only_the_web_is_a_target() {
    assert_eq!(
        target_of(address("ftp", None), "x", "address", false).unwrap_err(),
        "Only HTTP and HTTPS addresses are supported."
    );
    let (_, pending) = target_of(address("http", None), "x", "address", true).unwrap();
    assert_eq!((pending.target_url.as_str(), pending.search_url.as_deref()), ("the:text", Some("the:text")));
    assert_eq!(
        popup_navigation(Ok(address("file", None))).unwrap_err(),
        "Only HTTP and HTTPS popup addresses are supported."
    );
}

fn popup(tabs: &TabManager, url: &str) -> Result<(u64, String, String), String> {
    match tabs.create_tab(Some(url.to_owned()))? {
        TabRequest::Open => panic!("a new tab"),
        TabRequest::Redirect { id, steps, pending } => {
            assert_eq!((pending.source.as_str(), pending.submitted_input), ("popup", None));
            match &steps[..] {
                [ViewStep::Navigate { label, url }] => {
                    assert_eq!(pending.target_url, *url);
                    Ok((id, label.clone(), url.clone()))
                }
                other => panic!("{other:?}"),
            }
        }
    }
}

#[test]
fn popup_links_load_in_the_current_tab() {
    let mut tabs = opened(1);
    assert_eq!(popup(&tabs, "https://example.com/").unwrap_err(), "There is no active tab.");
    tabs.activate(1).unwrap();
    assert_eq!(
        popup(&tabs, "HTTPS://Example.com/a b").unwrap(),
        (1, "content-1".to_owned(), "https://example.com/a%20b".to_owned())
    );
    assert_eq!(ids(&tabs), [1]);
    assert_eq!(
        popup(&tabs, "javascript:1").unwrap_err(),
        "Only HTTP and HTTPS popup addresses are supported."
    );
    assert_eq!(popup(&tabs, "nowhere").unwrap_err(), "relative URL without a base");
    assert!(matches!(tabs.create_tab(None).unwrap(), TabRequest::Open));
    tabs.active_id = Some(9);
    assert_eq!(popup(&tabs, "http://a.example/").unwrap_err(), "The active tab is no longer available.");
}

#[test]
fn knows_where_a_navigation_comes_from() {
    let source = |source: &str| navigate("example.com", source.to_owned()).unwrap().1.source;
    for known in ["address", "history", "popup", "home"] {
        assert_eq!(source(known), known);
    }
    assert_eq!(source("elsewhere"), "other");
    let (url, pending) = navigate_home().unwrap();
    assert_eq!((url.text.as_str(), pending.target_url.as_str()), ("https://duckduckgo.com/", "https://duckduckgo.com/"));
    assert_eq!((pending.source.as_str(), pending.submitted_input), ("home", None));
}

#[test]
fn web_views_stay_on_the_web() {
    assert!(allows_navigation("http", "/") && allows_navigation("https", "/blank.html"));
    assert!(allows_navigation("tauri", "/blank.html") && allows_navigation("asset", "/blank.html"));
    assert!(!allows_navigation("tauri", "/") && !allows_navigation("file", "/blank.html"));
    assert_eq!(current_url("about:blank", "blank"), "");
    assert_eq!(current_url("tauri://localhost/blank.html", "/blank.html"), "");
    assert_eq!(current_url("https://example.com/", "/"), "https://example.com/");
}

#[test]
fn follows_navigations_to_their_visits() {
    let mut history = HistoryStore::open();
    let mut first = history.record_attempt("https://a.example/", 1).unwrap();
    first.id = 11;
    let mut second = history.record_attempt("HTTP://b.example/", 2).unwrap();
    second.id = 12;
    let mut third = history.record_attempt("http:b", 3).unwrap();
    third.id = 13;
    let mut tracker = NavigationTracker::new();
    assert!(tracker.current().is_none());
    tracker.started(1, &first);
    // Only the spelling of the web's schemes that web views use is followed.
    tracker.started(2, &second);
    assert!(tracker.get(2).is_none());
    tracker.started(3, &third);
    assert_eq!(tracker.current().unwrap().entry_id, 13);
    let (visit, status) = tracker.content_loading(1).unwrap();
    assert_eq!((visit.entry_id, status), (11, NavigationStatus::Started));
    let event = progress_event(7, &visit, status);
    assert_eq!((event.tab_id, event.url.as_str(), event.title), (7, "https://a.example/", None));
    let (visit, status) = tracker.navigation_completed(1).unwrap();
    assert_eq!((visit.entry_id, status), (11, NavigationStatus::Completed));
    assert!(tracker.navigation_completed(1).is_none() && tracker.content_loading(1).is_none());
    assert_eq!(tracker.current().unwrap().entry_id, 13);
    assert_eq!(attempt_event(7, &first).status, NavigationStatus::Attempted);
    assert!(is_loading(NavigationStatus::Started) && !is_loading(NavigationStatus::Completed));
    assert!(!is_recorded("about:blank") && is_recorded("about:blank#x"));
    assert_eq!((scheme_part("a:b:c").as_str(), scheme_part("abc").as_str()), ("a", "abc"));
}

#[test]
fn opens_and_shows_tabs() {
    let mut tabs = TabManager::new("Work".to_owned());
    assert_eq!(tabs.reserve(), (1, "content-1".to_owned()));
    assert_eq!(tabs.reserve(), (2, "content-2".to_owned()));
    assert_eq!(tabs.labels(), ["content-1", "content-2"]);
    assert_eq!(tabs.active().unwrap_err(), "There is no active tab.");
    assert_eq!(tabs.activate(1).unwrap(), (None, "content-1".to_owned()));
    assert_eq!(tabs.activate(2).unwrap(), (Some("content-1".to_owned()), "content-2".to_owned()));
    assert_eq!(tabs.activate(3).unwrap_err(), "That tab is no longer open.");
    assert_eq!((tabs.active().unwrap(), tabs.active_id()), ((2, "content-2".to_owned()), Some(2)));
    tabs.update_navigation(2, "https://example.com/x", true);
    let shown = tabs.summaries();
    assert_eq!((shown[0].id, shown[0].title.as_str(), shown[0].url.as_str()), (2, "example.com", "https://example.com/x"));
    assert!(shown[0].active && shown[0].loading && !shown[1].active);
    assert_eq!((shown[1].id, shown[1].title.as_str(), shown[1].url.as_str()), (1, "New Tab", ""));
    assert_eq!(tabs.opened_summary(1).unwrap().id, 1);
    assert_eq!(tabs.opened_summary(9).unwrap_err(), "Could not read the new tab.");
    tabs.active_id = Some(9);
    assert_eq!(tabs.active().unwrap_err(), "The active tab is no longer available.");
}

#[test]
fn a_new_page_drops_title_and_icon() {
    let mut tabs = opened(1);
    tabs.update_navigation(1, "https://example.com/", true);
    assert!(!tabs.update_title(1, "  Example  "));
    tabs.update_favicon(1, Some("icon".to_owned()));
    tabs.update_navigation(1, "https://example.com/", false);
    let shown = &tabs.summaries()[0];
    assert_eq!((shown.title.as_str(), shown.favicon.as_deref(), shown.loading), ("Example", Some("icon"), false));
    tabs.activate(1).unwrap();
    assert!(tabs.update_title(1, "   "));
    assert_eq!(tabs.tabs[0].title, "Example");
    tabs.update_navigation(1, "about:blank", false);
    assert_eq!((tabs.tabs[0].title.as_str(), tabs.tabs[0].favicon.as_deref()), ("Example", Some("icon")));
    tabs.update_navigation(1, "https://other.example/", false);
    assert_eq!((tabs.tabs[0].title.as_str(), tabs.tabs[0].favicon.as_deref()), ("other.example", None));
    tabs.update_navigation(5, "https://late.example/", false);
    assert_eq!(tabs.tabs[0].url, "https://other.example/");
    assert_eq!(display_url_title("data:,x"), "New Tab");
    assert_eq!(display_url_title("::"), "New Tab");
    assert_eq!(address_title(Ok(address("file", Some("")))), "New Tab");
    assert_eq!(address_title(Ok(address("https", Some("h")))), "h");
}

#[test]
fn closing_tabs_moves_the_front() {
    let mut tabs = opened(3);
    tabs.activate(2).unwrap();
    assert_eq!(tabs.close_tab(1).unwrap(), ("content-1".to_owned(), CloseStep::Refresh));
    assert_eq!(tabs.close_tab(2).unwrap(), ("content-2".to_owned(), CloseStep::Activate(3)));
    assert_eq!(tabs.close_tab(2).unwrap_err(), "That tab is no longer open.");
    assert_eq!(tabs.close_tab(3).unwrap(), ("content-3".to_owned(), CloseStep::CloseWindow));
    assert_eq!(tabs.active_id(), None);
    let mut tabs = opened(3);
    tabs.activate(3).unwrap();
    assert_eq!(tabs.remove(3).unwrap(), ("content-3".to_owned(), Some(2), true));
    assert_eq!(tabs.remove(1).unwrap(), ("content-1".to_owned(), Some(2), false));
    assert_eq!(ids(&tabs), [2]);
}

#[test]
fn steps_through_tabs_around_the_ends() {
    let mut tabs = opened(3);
    assert_eq!(opened(0).cycle_target(1).unwrap_err(), "There are no open tabs.");
    assert_eq!(tabs.cycle_target(1).unwrap(), 2);
    tabs.activate(3).unwrap();
    assert_eq!(tabs.cycle_target(7).unwrap(), 1);
    assert_eq!(tabs.cycle_target(0).unwrap(), 3);
    tabs.activate(1).unwrap();
    assert_eq!(tabs.cycle_target(i32::MIN).unwrap(), 3);
}

#[test]
fn a_tab_that_fails_to_open_leaves_no_trace() {
    let mut tabs = opened(2);
    tabs.activate(2).unwrap();
    let (id, label) = tabs.reserve();
    tabs.activate(id).unwrap();
    let steps = tabs.abandon_tab(id, label, Some(2), false);
    assert_eq!((ids(&tabs), tabs.active_id()), (vec![1, 2], Some(2)));
    assert_eq!(
        format!("{steps:?}"),
        "[Abandon(\"content-3\"), Show(\"content-2\"), Focus(\"content-2\"), Title(\"New Tab — Work — Folio\"), ShowTabs]"
    );
    assert_eq!(tabs.reserve().0, 4);
    tabs.rollback(4);
    assert_eq!((ids(&tabs), tabs.active_id()), (vec![1, 2], Some(2)));
    tabs.rollback(2);
    assert_eq!(tabs.active_id(), None);
}

#[test]
fn the_last_identifier_is_given_again() {
    let mut tabs = opened(0);
    tabs.next_id = u64::MAX;
    assert_eq!(tabs.reserve().1, "content-18446744073709551615");
    assert_eq!(tabs.reserve().0, u64::MAX);
}

#[test]
fn shows_the_web_view_at_the_front_alone() {
    let mut tabs = opened(2);
    tabs.activate(1).unwrap();
    let steps = tabs.show_tab(2, false, true).unwrap();
    assert_eq!(
        format!("{steps:?}"),
        "[Leave(\"content-1\"), Show(\"content-2\"), Focus(\"content-2\"), Title(\"New Tab — Work — Folio\"), ShowTabs]"
    );
    let steps = tabs.show_tab(2, true, true).unwrap();
    assert_eq!(format!("{steps:?}"), "[Hide(\"content-2\"), Title(\"New Tab — Work — Folio\"), ShowTabs]");
    assert_eq!(tabs.show_tab(9, true, true).unwrap_err(), "That tab is no longer open.");
    let (id, _) = tabs.reserve();
    let steps = tabs.settle_tab(id, false, Some("https://a.example/".to_owned())).unwrap();
    assert_eq!(
        format!("{steps:?}"),
        "[Leave(\"content-2\"), Show(\"content-3\"), RaiseChrome, Navigate { label: \"content-3\", url: \"https://a.example/\" }, Focus(\"content-3\"), ShowTabs]"
    );
    let (id, _) = tabs.reserve();
    let steps = tabs.settle_tab(id, true, None).unwrap();
    assert_eq!(format!("{steps:?}"), "[Leave(\"content-3\"), Hide(\"content-4\"), RaiseChrome, ShowTabs]");
    assert!(matches!(visibility_steps("c".to_owned(), true)[..], [ViewStep::Layout, ViewStep::Show(_), ViewStep::Focus(_)]));
    assert!(matches!(visibility_steps("c".to_owned(), false)[..], [ViewStep::Hide(_), ViewStep::Layout, ViewStep::FocusChrome]));
}

#[test]
fn titles_the_window() {
    assert_eq!(window_title("Page", "Work"), "Page — Work — Folio");
    assert_eq!(start_title("Work"), "Folio — Work");
    let mut tabs = opened(2);
    assert_eq!(tabs.front_title(), None);
    tabs.activate(1).unwrap();
    tabs.update_title(1, "First");
    assert_eq!(tabs.front_title().as_deref(), Some("First — Work — Folio"));
    assert_eq!(hidden_label(Some("a".to_owned()), "b").as_deref(), Some("a"));
    assert_eq!(hidden_label(Some("a".to_owned()), "a"), None);
    assert_eq!(hidden_label(None, "a"), None);
}

#[test]
fn keys_stand_for_shortcuts() {
    assert_eq!(shortcut(true, false, false, 0x54), Some("new-tab"));
    assert_eq!(shortcut(true, true, true, 0x57), Some("close-tab"));
    assert_eq!(shortcut(true, false, false, 0x4c), Some("focus-address"));
    assert_eq!(shortcut(true, false, false, 0x52), Some("reload"));
    assert_eq!(shortcut(true, true, false, 0x09), Some("previous-tab"));
    assert_eq!(shortcut(true, false, false, 0x09), Some("next-tab"));
    assert_eq!(shortcut(false, false, true, 0x25), Some("back"));
    assert_eq!(shortcut(false, false, true, 0x27), Some("forward"));
    assert_eq!(shortcut(true, false, true, 0x25), None);
    assert_eq!(shortcut(false, true, false, 0x54), None);
}

#[test]
fn icons_become_data_addresses() {
    let mut icon = IconBuffer::new();
    assert_eq!(icon.data_url(), None);
    assert!(icon.push(&b"hello ".to_vec()) && icon.push(&b"world~".to_vec()));
    assert_eq!(icon.data_url().as_deref(), Some("data:image/png;base64,aGVsbG8gd29ybGR+"));
    let mut one = IconBuffer::new();
    one.push(&vec![0xfb]);
    assert_eq!(one.data_url().as_deref(), Some("data:image/png;base64,+w=="));
    one.push(&vec![0xff]);
    assert_eq!(one.data_url().as_deref(), Some("data:image/png;base64,+/8="));
}

#[test]
fn large_icons_are_not_shown() {
    let mut icon = IconBuffer::new();
    for _ in 0..64 {
        assert!(icon.push(&vec![1; 4096]));
    }
    assert_eq!(icon.data_url().unwrap().len(), 22 + 349_528);
    assert!(!icon.push(&vec![1]));
    assert_eq!(icon.data_url(), None);
    assert!(!icon.push(&Vec::new()));
}

#[test]
fn plain_hosts_are_written_as_they_are_read() {
    let long = "a".repeat(300);
    for host in ["example.com", "localhost", ".", "..", "a..b", ".a", "a.", long.as_str(), "xn", "com.xn"] {
        let text = format!("https://{host}/");
        let parsed = url::Url::parse(&text).unwrap();
        assert_eq!(parsed.as_str(), text);
        assert_eq!(parsed.host_str(), Some(host));
        assert_eq!(parsed.path(), "/");
        let more = url::Url::parse_with_params(&text, &[("q", "a b&\u{e9}#%\n")]).unwrap();
        assert_eq!(url::Url::parse(more.as_str()).unwrap(), more);
        assert_eq!(more.host_str(), Some(host));
    }
}
