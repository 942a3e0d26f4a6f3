//! The browsing ledger: navigation attempts, their later status and title, and their search.

use crate::address::{parse_address, parsed_address, Address, AddressView};
use crate::text::{opt_text, same_text, trim, trimmed};
use vstd::prelude::*;

verus! {

/// How far a navigation has come.
#[derive(Clone, Copy, Debug, PartialEq, Eq, Structural)]
pub enum NavigationStatus {
    Attempted,
    Started,
    Completed,
}

impl NavigationStatus {
    /// The text that stands for the status in the database.
    pub open spec fn name(self) -> Seq<char> {
        match self {
            NavigationStatus::Attempted => "attempted"@,
            NavigationStatus::Started => "started"@,
            NavigationStatus::Completed => "completed"@,
        }
    }

    /// The status that a database text stands for.
    pub open spec fn of_name(name: Seq<char>) -> Option<NavigationStatus> {
        if name == "attempted"@ {
            Some(NavigationStatus::Attempted)
        } else if name == "started"@ {
            Some(NavigationStatus::Started)
        } else if name == "completed"@ {
            Some(NavigationStatus::Completed)
        } else {
            None
        }
    }

    pub fn as_database_value(self) -> (r: &'static str)
        ensures
            r@ == self.name(),
    {
        match self {
            NavigationStatus::Attempted => "attempted",
            NavigationStatus::Started => "started",
            NavigationStatus::Completed => "completed",
        }
    }

    pub fn from_database_value(value: &str) -> (r: Result<NavigationStatus, String>)
        ensures
            match r {
                Ok(status) => NavigationStatus::of_name(value@) == Some(status),
                Err(message) => {
                    &&& NavigationStatus::of_name(value@) is None
                    &&& message@ == "History database contains an invalid navigation status: "@ + value@
                },
            },
    {
        if same_text(value, "attempted") {
            Ok(NavigationStatus::Attempted)
        } else if same_text(value, "started") {
            Ok(NavigationStatus::Started)
        } else if same_text(value, "completed") {
            Ok(NavigationStatus::Completed)
        } else {
            let mut message: String = "History database contains an invalid navigation status: ".to_owned();
            message.append(value);
            Err(message)
        }
    }
}

/// Reading a stored status gives back the status that was stored.
pub proof fn stored_status_reads_back(status: NavigationStatus)
    ensures
        NavigationStatus::of_name(status.name()) == Some(status),
{
    reveal_strlit("attempted");
    reveal_strlit("started");
    reveal_strlit("completed");
    assert("attempted"@.len() == 9);
    assert("started"@.len() == 7);
    assert("completed"@.len() == 9);
    assert("attempted"@[0] == 'a');
    assert("completed"@[0] == 'c');
}

/// One entry of the ledger.
#[derive(Debug)]
pub struct HistoryEntry {
    pub id: u64,
    pub attempted_at: u64,
    pub updated_at: u64,
    pub url: String,
    pub title: Option<String>,
    pub status: NavigationStatus,
    pub source: String,
    pub submitted_input: Option<String>,
    pub search_query: Option<String>,
    pub search_url: Option<String>,
}

/// A ledger entry with its texts as sequences of characters.
#[verifier::ext_equal]
pub struct HistoryEntryView {
    pub id: u64,
    pub attempted_at: u64,
    pub updated_at: u64,
    pub url: Seq<char>,
    pub title: Option<Seq<char>>,
    pub status: NavigationStatus,
    pub source: Seq<char>,
    pub submitted_input: Option<Seq<char>>,
    pub search_query: Option<Seq<char>>,
    pub search_url: Option<Seq<char>>,
}

impl View for HistoryEntry {
    type V = HistoryEntryView;

    open spec fn view(&self) -> HistoryEntryView {
        HistoryEntryView {
            id: self.id,
            attempted_at: self.attempted_at,
            updated_at: self.updated_at,
            url: self.url@,
            title: opt_text(self.title),
            status: self.status,
            source: self.source@,
            submitted_input: opt_text(self.submitted_input),
            search_query: opt_text(self.search_query),
            search_url: opt_text(self.search_url),
        }
    }
}

impl Clone for HistoryEntry {
    fn clone(&self) -> (r: HistoryEntry)
        ensures
            r@ == self@,
    {
        HistoryEntry {
            id: self.id,
            attempted_at: self.attempted_at,
            updated_at: self.updated_at,
            url: self.url.clone(),
            title: self.title.clone(),
            status: self.status,
            source: self.source.clone(),
            submitted_input: self.submitted_input.clone(),
            search_query: self.search_query.clone(),
            search_url: self.search_url.clone(),
        }
    }
}

/// What is known of a navigation that the browser itself has asked for.
#[derive(Debug)]
pub struct PendingNavigation {
    pub target_url: String,
    pub source: String,
    pub submitted_input: Option<String>,
    pub search_query: Option<String>,
    pub search_url: Option<String>,
}

/// A pending navigation with its texts as sequences of characters.
#[verifier::ext_equal]
pub struct PendingNavigationView {
    pub target_url: Seq<char>,
    pub source: Seq<char>,
    pub submitted_input: Option<Seq<char>>,
    pub search_query: Option<Seq<char>>,
    pub search_url: Option<Seq<char>>,
}

impl View for PendingNavigation {
    type V = PendingNavigationView;

    open spec fn view(&self) -> PendingNavigationView {
        PendingNavigationView {
            target_url: self.target_url@,
            source: self.source@,
            submitted_input: opt_text(self.submitted_input),
            search_query: opt_text(self.search_query),
            search_url: opt_text(self.search_url),
        }
    }
}

impl Clone for PendingNavigation {
    fn clone(&self) -> (r: PendingNavigation)
        ensures
            r@ == self@,
    {
        PendingNavigation {
            target_url: self.target_url.clone(),
            source: self.source.clone(),
            submitted_input: self.submitted_input.clone(),
            search_query: self.search_query.clone(),
            search_url: self.search_url.clone(),
        }
    }
}

/// The view of an optional pending navigation.
pub open spec fn pending_view(o: Option<PendingNavigation>) -> Option<PendingNavigationView> {
    match o {
        Some(pending) => Some(pending@),
        None => None,
    }
}

/// The columns of one database row of the ledger, as SQLite holds them.
#[derive(Debug)]
pub struct HistoryRow {
    pub id: i64,
    pub attempted_at: i64,
    pub updated_at: i64,
    pub url: String,
    pub title: Option<String>,
    pub status: String,
    pub source: String,
    pub submitted_input: Option<String>,
    pub search_query: Option<String>,
    pub search_url: Option<String>,
}

/// A database row with its texts as sequences of characters.
#[verifier::ext_equal]
pub struct HistoryRowView {
    pub id: i64,
    pub attempted_at: i64,
    pub updated_at: i64,
    pub url: Seq<char>,
    pub title: Option<Seq<char>>,
    pub status: Seq<char>,
    pub source: Seq<char>,
    pub submitted_input: Option<Seq<char>>,
    pub search_query: Option<Seq<char>>,
    pub search_url: Option<Seq<char>>,
}

impl View for HistoryRow {
    type V = HistoryRowView;

    open spec fn view(&self) -> HistoryRowView {
        HistoryRowView {
            id: self.id,
            attempted_at: self.attempted_at,
            updated_at: self.updated_at,
            url: self.url@,
            title: opt_text(self.title),
            status: self.status@,
            source: self.source@,
            submitted_input: opt_text(self.submitted_input),
            search_query: opt_text(self.search_query),
            search_url: opt_text(self.search_url),
        }
    }
}

impl Clone for HistoryRow {
    fn clone(&self) -> (r: HistoryRow)
        ensures
            r@ == self@,
    {
        HistoryRow {
            id: self.id,
            attempted_at: self.attempted_at,
            updated_at: self.updated_at,
            url: self.url.clone(),
            title: self.title.clone(),
            status: self.status.clone(),
            source: self.source.clone(),
            submitted_input: self.submitted_input.clone(),
            search_query: self.search_query.clone(),
            search_url: self.search_url.clone(),
        }
    }
}

/// The view of an optional row.
pub open spec fn row_view(o: Option<HistoryRow>) -> Option<HistoryRowView> {
    match o {
        Some(row) => Some(row@),
        None => None,
    }
}

/// The number as SQLite stores it, if it fits.
pub fn sqlite_integer(value: u64) -> (r: Result<i64, String>)
    ensures
        match r {
            Ok(stored) => stored == value,
            Err(message) => value > i64::MAX && message@ == "Timestamp exceeds SQLite's integer range."@,
        },
{
    if value <= i64::MAX as u64 {
        Ok(value as i64)
    } else {
        Err("Timestamp exceeds SQLite's integer range.".to_owned())
    }
}

/// The message about a negative number in the named column.
pub open spec fn negative_message(column: Seq<char>) -> Seq<char> {
    "History database contains a negative "@ + column + "."@
}

/// The number that SQLite has stored, if it is not negative.
pub fn sqlite_unsigned(value: i64, column: &str) -> (r: Result<u64, String>)
    ensures
        match r {
            Ok(number) => number == value,
            Err(message) => value < 0 && message@ == negative_message(column@),
        },
{
    if value >= 0 {
        Ok(value as u64)
    } else {
        let mut message: String = "History database contains a negative ".to_owned();
        message.append(column);
        message.append(".");
        Err(message)
    }
}

/// The entry that a row stands for, or the message about the first column that is out of range.
pub open spec fn entry_of_row(row: HistoryRowView) -> Result<HistoryEntryView, Seq<char>> {
    if row.id < 0 {
        Err(negative_message("ID"@))
    } else if row.attempted_at < 0 {
        Err(negative_message("attempt timestamp"@))
    } else if row.updated_at < 0 {
        Err(negative_message("update timestamp"@))
    } else {
        match NavigationStatus::of_name(row.status) {
            None => Err("History database contains an invalid navigation status: "@ + row.status),
            Some(status) => Ok(
                HistoryEntryView {
                    id: row.id as u64,
                    attempted_at: row.attempted_at as u64,
                    updated_at: row.updated_at as u64,
                    url: row.url,
                    title: row.title,
                    status,
                    source: row.source,
                    submitted_input: row.submitted_input,
                    search_query: row.search_query,
                    search_url: row.search_url,
                },
            ),
        }
    }
}

/// The row that stores an entry whose numbers fit in SQLite's integers.
pub open spec fn row_of_entry(entry: HistoryEntryView) -> HistoryRowView {
    HistoryRowView {
        id: entry.id as i64,
        attempted_at: entry.attempted_at as i64,
        updated_at: entry.updated_at as i64,
        url: entry.url,
        title: entry.title,
        status: entry.status.name(),
        source: entry.source,
        submitted_input: entry.submitted_input,
        search_query: entry.search_query,
        search_url: entry.search_url,
    }
}

/// Whether SQLite's integers hold the numbers of an entry.
pub open spec fn fits_in_row(entry: HistoryEntryView) -> bool {
    &&& entry.id <= i64::MAX
    &&& entry.attempted_at <= i64::MAX
    &&& entry.updated_at <= i64::MAX
}

/// An entry that is stored as a row is read back from it unchanged.
pub proof fn stored_entry_reads_back(entry: HistoryEntryView)
    requires
        fits_in_row(entry),
    ensures
        entry_of_row(row_of_entry(entry)) == Ok::<HistoryEntryView, Seq<char>>(entry),
{
    stored_status_reads_back(entry.status);
}

impl HistoryEntry {
    /// The row that stores the entry.
    pub fn to_row(&self) -> (r: Result<HistoryRow, String>)
        ensures
            match r {
                Ok(row) => fits_in_row(self@) && row@ == row_of_entry(self@),
                Err(message) => {
                    &&& !fits_in_row(self@)
                    &&& message@ == "Timestamp exceeds SQLite's integer range."@
                },
            },
    {
        let attempted_at: i64 = match sqlite_integer(self.attempted_at) {
            Ok(value) => value,
            Err(message) => {
                return Err(message);
            },
        };
        let updated_at: i64 = match sqlite_integer(self.updated_at) {
            Ok(value) => value,
            Err(message) => {
                return Err(message);
            },
        };
        let id: i64 = match sqlite_integer(self.id) {
            Ok(value) => value,
            Err(message) => {
                return Err(message);
            },
        };
        Ok(
            HistoryRow {
                id,
                attempted_at,
                updated_at,
                url: self.url.clone(),
                title: self.title.clone(),
                status: self.status.as_database_value().to_owned(),
                source: self.source.clone(),
                submitted_input: self.submitted_input.clone(),
                search_query: self.search_query.clone(),
                search_url: self.search_url.clone(),
            },
        )
    }
}

/// The first value that is not blank of a query pair named `q`.
pub open spec fn first_search(pairs: Seq<(Seq<char>, Seq<char>)>) -> Option<Seq<char>>
    decreases pairs.len(),
{
    if pairs.len() == 0 {
        None
    } else if pairs[0].0 == "q"@ && trimmed(pairs[0].1).len() > 0 {
        Some(pairs[0].1)
    } else {
        first_search(pairs.skip(1))
    }
}

/// Whether a host is the search engine's.
pub open spec fn search_host(host: Seq<char>) -> bool {
    host == "duckduckgo.com"@ || host == "www.duckduckgo.com"@
}

/// The search that an address carries to the search engine.
pub open spec fn search_of(address: AddressView) -> Option<Seq<char>> {
    match address.host {
        Some(host) => if search_host(host) {
            first_search(address.pairs)
        } else {
            None
        },
        None => None,
    }
}

/// The search that a text carries, if it is an address of the search engine.
pub open spec fn search_of_text(url: Seq<char>) -> Option<Seq<char>> {
    match parsed_address(url) {
        Ok(address) => search_of(address),
        Err(_) => None,
    }
}

/// The search that an address carries to the search engine.
pub fn search_query_of(address: &Address) -> (r: Option<String>)
    ensures
        opt_text(r) == search_of(address@),
{
    match &address.host {
        Some(host) => {
            if !same_text(host.as_str(), "duckduckgo.com") && !same_text(host.as_str(), "www.duckduckgo.com") {
                return None;
            }
        },
        None => {
            return None;
        },
    }
    let ghost pairs = address@.pairs;
    assert(pairs.skip(0) == pairs);
    let mut i: usize = 0;
    while i < address.pairs.len()
        invariant
            i <= address.pairs@.len(),
            pairs == address@.pairs,
            search_of(address@) == first_search(pairs),
            first_search(pairs) == first_search(pairs.skip(i as int)),
        decreases address.pairs@.len() - i,
    {
        let pair: &(String, String) = &address.pairs[i];
        assert(pairs.skip(i as int)[0] == (pair.0@, pair.1@));
        if same_text(pair.0.as_str(), "q") && !trim(pair.1.as_str()).as_str().is_empty() {
            return Some(pair.1.clone());
        }
        assert(pairs.skip(i as int).skip(1) == pairs.skip(i + 1));
        i = i + 1;
    }
    None
}

/// The search that the text carries, if it is an address of the search engine.
pub fn duckduckgo_search_query(url: &str) -> (r: Option<String>)
    ensures
        opt_text(r) == search_of_text(url@),
{
    match parse_address(url) {
        Ok(address) => search_query_of(&address),
        Err(_) => None,
    }
}

/// The first of two optional texts that is there.
pub open spec fn text_or(first: Option<Seq<char>>, second: Option<Seq<char>>) -> Option<Seq<char>> {
    match first {
        Some(text) => Some(text),
        None => second,
    }
}

/// The entry of a navigation that is first attempted at `now`: what the browser knows of it
/// comes before what its address shows.
pub open spec fn attempt_of(
    context: Option<PendingNavigationView>,
    detected: Option<Seq<char>>,
    url: Seq<char>,
    now: u64,
) -> HistoryEntryView {
    let detected_url = match detected {
        Some(_) => Some(url),
        None => None,
    };
    HistoryEntryView {
        id: 0,
        attempted_at: now,
        updated_at: now,
        url,
        title: None,
        status: NavigationStatus::Attempted,
        source: match (context, detected) {
            (Some(item), _) => item.source,
            (None, Some(_)) => "duckduckgo"@,
            (None, None) => "page"@,
        },
        submitted_input: match context {
            Some(item) => text_or(item.submitted_input, detected),
            None => detected,
        },
        search_query: match context {
            Some(item) => text_or(item.search_query, detected),
            None => detected,
        },
        search_url: match context {
            Some(item) => text_or(item.search_url, detected_url),
            None => detected_url,
        },
    }
}

/// A copy of the first of two optional texts that is there.
fn copy_or(first: &Option<String>, second: &Option<String>) -> (r: Option<String>)
    ensures
        opt_text(r) == text_or(opt_text(*first), opt_text(*second)),
{
    match first {
        Some(text) => Some(text.clone()),
        None => second.clone(),
    }
}

/// The entry of a navigation attempt, from what is known of it and what its address shows.
pub fn attempt_entry(
    context: Option<PendingNavigation>,
    detected: Option<String>,
    url: &str,
    now: u64,
) -> (r: HistoryEntry)
    ensures
        r@ == attempt_of(pending_view(context), opt_text(detected), url@, now),
{
    let detected_url: Option<String> = match &detected {
        Some(_) => Some(url.to_owned()),
        None => None,
    };
    match context {
        Some(item) => HistoryEntry {
            id: 0,
            attempted_at: now,
            updated_at: now,
            url: url.to_owned(),
            title: None,
            status: NavigationStatus::Attempted,
            source: item.source,
            submitted_input: copy_or(&item.submitted_input, &detected),
            search_query: copy_or(&item.search_query, &detected),
            search_url: copy_or(&item.search_url, &detected_url),
        },
        None => HistoryEntry {
            id: 0,
            attempted_at: now,
            updated_at: now,
            url: url.to_owned(),
            title: None,
            status: NavigationStatus::Attempted,
            source: match &detected {
                Some(_) => "duckduckgo".to_owned(),
                None => "page".to_owned(),
            },
            submitted_input: detected.clone(),
            search_query: detected,
            search_url: detected_url,
        },
    }
}

/// The row to write when the entry `id` reaches `status` at `now`, if anything changes.
pub open spec fn status_change(
    stored: Option<HistoryRowView>,
    id: u64,
    status: NavigationStatus,
    now: u64,
) -> Option<HistoryRowView> {
    match stored {
        Some(row) => if row.id == id && row.status != status.name() {
            Some(HistoryRowView { status: status.name(), updated_at: now as i64, ..row })
        } else {
            None
        },
        None => None,
    }
}

/// The row to write when the entry `id` gets `title` at `now`, if anything changes.
pub open spec fn title_change(
    stored: Option<HistoryRowView>,
    id: u64,
    title: Seq<char>,
    now: u64,
) -> Option<HistoryRowView> {
    match stored {
        Some(row) => if row.id == id && row.title != Some(title) {
            Some(HistoryRowView { title: Some(title), updated_at: now as i64, ..row })
        } else {
            None
        },
        None => None,
    }
}

/// What the ledger keeps in memory: the navigation that the browser has asked for and that has
/// not yet been attempted.
pub struct HistoryStore {
    pub pending: Option<PendingNavigation>,
}

impl View for HistoryStore {
    type V = Option<PendingNavigationView>;

    open spec fn view(&self) -> Option<PendingNavigationView> {
        pending_view(self.pending)
    }
}

/// What the pending navigation tells of an attempt to reach `url`.
pub open spec fn context_for(pending: Option<PendingNavigationView>, url: Seq<char>) -> Option<PendingNavigationView> {
    match pending {
        Some(item) => if item.target_url == url {
            Some(item)
        } else {
            None
        },
        None => None,
    }
}

/// The pending navigation that is left after an attempt to reach `url`.
pub open spec fn pending_after(pending: Option<PendingNavigationView>, url: Seq<char>) -> Option<PendingNavigationView> {
    match pending {
        Some(item) => if item.target_url == url {
            None
        } else {
            Some(item)
        },
        None => None,
    }
}

impl HistoryStore {
    /// A store that waits for no navigation.
    pub fn open() -> (r: HistoryStore)
        ensures
            r@ is None,
    {
        HistoryStore { pending: None }
    }

    pub fn set_pending(&mut self, pending: PendingNavigation)
        ensures
            final(self)@ == Some(pending@),
    {
        self.pending = Some(pending);
    }

    /// Forgets the navigation that the browser has asked for.
    pub fn clear_pending(&mut self)
        ensures
            final(self)@ is None,
    {
        self.pending = None;
    }

    /// Takes the pending navigation if `url` is its target.
    fn take_context(&mut self, url: &str) -> (r: Option<PendingNavigation>)
        ensures
            pending_view(r) == context_for(old(self)@, url@),
            final(self)@ == pending_after(old(self)@, url@),
    {
        let matching: bool = match &self.pending {
            Some(item) => same_text(item.target_url.as_str(), url),
            None => false,
        };
        if matching {
            self.pending.take()
        } else {
            None
        }
    }

    /// The entry of an attempt to reach `url` at `now`, not yet stored. The pending navigation
    /// is used up if `url` is its target, also when the time is out of range.
    pub fn record_attempt(&mut self, url: &str, now: u64) -> (r: Result<HistoryEntry, String>)
        ensures
            final(self)@ == pending_after(old(self)@, url@),
            match r {
                Ok(entry) => {
                    &&& now <= i64::MAX
                    &&& entry@ == attempt_of(context_for(old(self)@, url@), search_of_text(url@), url@, now)
                },
                Err(message) => {
                    &&& now > i64::MAX
                    &&& message@ == "Timestamp exceeds SQLite's integer range."@
                },
            },
            final(self)@ == attempted(old(self)@, url@, now).0,
            match r {
                Ok(entry) => attempted(old(self)@, url@, now).1 == Some(entry@),
                Err(_) => attempted(old(self)@, url@, now).1 is None,
            },
    {
        let context: Option<PendingNavigation> = self.take_context(url);
        let detected: Option<String> = duckduckgo_search_query(url);
        let entry: HistoryEntry = attempt_entry(context, detected, url, now);
        match sqlite_integer(now) {
            Ok(_) => Ok(entry),
            Err(message) => Err(message),
        }
    }

    /// The stored entry, once SQLite has given its row an ID.
    pub fn attempt_stored(entry: HistoryEntry, row_id: i64) -> (r: Result<HistoryEntry, String>)
        ensures
            match r {
                Ok(stored) => {
                    &&& row_id >= 0 && stored@ == (HistoryEntryView { id: row_id as u64, ..entry@ })
                    &&& stored@ == stored_under(entry@, row_id)
                },
                Err(message) => row_id < 0 && message@ == "History database generated an invalid ID."@,
            },
    {
        if row_id >= 0 {
            let mut stored: HistoryEntry = entry;
            stored.id = row_id as u64;
            Ok(stored)
        } else {
            Err("History database generated an invalid ID.".to_owned())
        }
    }

    /// The row to write, if any, when the entry `id` reaches `status` at `now`. `stored` is the
    /// row that the database holds for it.
    pub fn update_status(
        &self,
        id: u64,
        status: NavigationStatus,
        now: u64,
        stored: Option<HistoryRow>,
    ) -> (r: Result<Option<HistoryRow>, String>)
        ensures
            match r {
                Ok(change) => {
                    &&& now <= i64::MAX && id <= i64::MAX
                    &&& row_view(change) == status_change(row_view(stored), id, status, now)
                },
                Err(message) => {
                    &&& now > i64::MAX || id > i64::MAX
                    &&& message@ == "Timestamp exceeds SQLite's integer range."@
                },
            },
    {
        let updated_at: i64 = match sqlite_integer(now) {
            Ok(value) => value,
            Err(message) => {
                return Err(message);
            },
        };
        let key: i64 = match sqlite_integer(id) {
            Ok(value) => value,
            Err(message) => {
                return Err(message);
            },
        };
        let name: &'static str = status.as_database_value();
        match stored {
            Some(row) => {
                if row.id == key && !same_text(row.status.as_str(), name) {
                    let mut changed: HistoryRow = row;
                    changed.status = name.to_owned();
                    changed.updated_at = updated_at;
                    Ok(Some(changed))
                } else {
                    Ok(None)
                }
            },
            None => Ok(None),
        }
    }

    /// The row to write, if any, when the entry `id` gets a title at `now`. `stored` is the row
    /// that the database holds for it. A blank title changes nothing.
    pub fn update_title(
        &self,
        id: u64,
        title: &str,
        now: u64,
        stored: Option<HistoryRow>,
    ) -> (r: Result<Option<HistoryRow>, String>)
        ensures
            match r {
                Ok(change) => {
                    if trimmed(title@).len() == 0 {
                        change is None
                    } else {
                        &&& now <= i64::MAX && id <= i64::MAX
                        &&& row_view(change) == title_change(row_view(stored), id, trimmed(title@), now)
                        &&& row_view(change) == shown_title_change(row_view(stored), id, title@, now)
                    }
                },
                Err(message) => {
                    &&& trimmed(title@).len() > 0
                    &&& now > i64::MAX || id > i64::MAX
                    &&& message@ == "Timestamp exceeds SQLite's integer range."@
                },
            },
    {
        let shown: String = trim(title);
        if shown.as_str().is_empty() {
            return Ok(None);
        }
        let updated_at: i64 = match sqlite_integer(now) {
            Ok(value) => value,
            Err(message) => {
                return Err(message);
            },
        };
        let key: i64 = match sqlite_integer(id) {
            Ok(value) => value,
            Err(message) => {
                return Err(message);
            },
        };
        match stored {
            Some(row) => {
                let same: bool = match &row.title {
                    Some(present) => same_text(present.as_str(), shown.as_str()),
                    None => false,
                };
                if row.id == key && !same {
                    let mut changed: HistoryRow = row;
                    changed.title = Some(shown);
                    changed.updated_at = updated_at;
                    Ok(Some(changed))
                } else {
                    Ok(None)
                }
            },
            None => Ok(None),
        }
    }

    /// The entry that a row stands for.
    pub fn entry_from_row(row: HistoryRow) -> (r: Result<HistoryEntry, String>)
        ensures
            match r {
                Ok(entry) => entry_of_row(row@) == Ok::<HistoryEntryView, Seq<char>>(entry@),
                Err(message) => entry_of_row(row@) == Err::<HistoryEntryView, Seq<char>>(message@),
            },
    {
        let id: u64 = match sqlite_unsigned(row.id, "ID") {
            Ok(value) => value,
            Err(message) => {
                return Err(message);
            },
        };
        let attempted_at: u64 = match sqlite_unsigned(row.attempted_at, "attempt timestamp") {
            Ok(value) => value,
            Err(message) => {
                return Err(message);
            },
        };
        let updated_at: u64 = match sqlite_unsigned(row.updated_at, "update timestamp") {
            Ok(value) => value,
            Err(message) => {
                return Err(message);
            },
        };
        match NavigationStatus::from_database_value(row.status.as_str()) {
            Ok(status) => Ok(
                HistoryEntry {
                    id,
                    attempted_at,
                    updated_at,
                    url: row.url,
                    title: row.title,
                    status,
                    source: row.source,
                    submitted_input: row.submitted_input,
                    search_query: row.search_query,
                    search_url: row.search_url,
                },
            ),
            Err(message) => Err(message),
        }
    }

    /// The entries that rows stand for, in the order of the rows, or the message about the first
    /// row that stands for none.
    pub fn entries_newest_first(rows: Vec<HistoryRow>) -> (r: Result<Vec<HistoryEntry>, String>)
        ensures
            match r {
                Ok(entries) => {
                    &&& entries@.len() == rows@.len()
                    &&& forall|i: int|
                        0 <= i < rows@.len() ==> entry_of_row(#[trigger] rows@[i]@) == Ok::<
                            HistoryEntryView,
                            Seq<char>,
                        >(entries@[i]@)
                },
                Err(message) => exists|i: int|
                    {
                        &&& 0 <= i < rows@.len()
                        &&& entry_of_row(#[trigger] rows@[i]@) == Err::<HistoryEntryView, Seq<char>>(message@)
                        &&& forall|j: int| 0 <= j < i ==> entry_of_row(#[trigger] rows@[j]@) is Ok
                    },
            },
    {
        let mut entries: Vec<HistoryEntry> = Vec::new();
        let mut i: usize = 0;
        while i < rows.len()
            invariant
                i <= rows@.len(),
                entries@.len() == i,
                forall|j: int|
                    0 <= j < i ==> entry_of_row(#[trigger] rows@[j]@) == Ok::<HistoryEntryView, Seq<char>>(
                        entries@[j]@,
                    ),
            decreases rows@.len() - i,
        {
            match HistoryStore::entry_from_row(rows[i].clone()) {
                Ok(entry) => {
                    entries.push(entry);
                },
                Err(message) => {
                    assert(entry_of_row(rows@[i as int]@) == Err::<HistoryEntryView, Seq<char>>(message@));
                    return Err(message);
                },
            }
            i = i + 1;
        }
        Ok(entries)
    }
}

/// Whatever the browser knows of a navigation, an attempt to reach an address that carries a search
/// is recorded with one: with the words, the input and the address that the browser knows where it
/// knows them, and otherwise with those that the address shows.
pub proof fn search_in_an_address_is_recorded(
    pending: Option<PendingNavigationView>,
    url: Seq<char>,
    words: Seq<char>,
    now: u64,
)
    requires
        search_of_text(url) == Some(words),
    ensures
        ({
            let entry = attempt_of(context_for(pending, url), search_of_text(url), url, now);
            let known = pending is Some && pending->0.target_url == url;
            &&& entry.search_query is Some && entry.submitted_input is Some && entry.search_url is Some
            &&& known && pending->0.search_query is Some ==> entry.search_query == pending->0.search_query
            &&& !(known && pending->0.search_query is Some) ==> entry.search_query == Some(words)
            &&& known && pending->0.submitted_input is Some ==> entry.submitted_input == pending->0.submitted_input
            &&& !(known && pending->0.submitted_input is Some) ==> entry.submitted_input == Some(words)
            &&& known && pending->0.search_url is Some ==> entry.search_url == pending->0.search_url
            &&& !(known && pending->0.search_url is Some) ==> entry.search_url == Some(url)
        }),
{
}

/// An attempt to reach an address that carries no search is recorded with what the browser knows of
/// it, and with no input and no search where it knows of none.
pub proof fn address_without_a_search_adds_nothing(pending: Option<PendingNavigationView>, url: Seq<char>, now: u64)
    requires
        search_of_text(url) is None,
    ensures
        ({
            let entry = attempt_of(context_for(pending, url), search_of_text(url), url, now);
            if pending is Some && pending->0.target_url == url {
                &&& entry.submitted_input == pending->0.submitted_input
                &&& entry.search_query == pending->0.search_query
                &&& entry.search_url == pending->0.search_url
            } else {
                entry.submitted_input is None && entry.search_query is None && entry.search_url is None
            }
        }),
{
}

/// Every attempt is recorded under its address and with the time at which it is made, as attempted
/// and without a title. Its source is the one that the browser names, if it has asked for this
/// address, or else tells a search on the search engine's page from any other page.
pub proof fn attempt_tells_where_it_came_from(pending: Option<PendingNavigationView>, url: Seq<char>, now: u64)
    ensures
        ({
            let entry = attempt_of(context_for(pending, url), search_of_text(url), url, now);
            &&& entry.url == url
            &&& entry.attempted_at == now && entry.updated_at == now
            &&& entry.status.name() == "attempted"@
            &&& entry.title is None
            &&& entry.source == if pending is Some && pending->0.target_url == url {
                pending->0.source
            } else if search_of_text(url) is Some {
                "duckduckgo"@
            } else {
                "page"@
            }
        }),
{
}

/// What the browser has asked for waits for the attempt to reach its own target and for no other:
/// an attempt to reach another address leaves it and gets nothing of it.
pub proof fn pending_navigation_waits_for_its_target(pending: PendingNavigationView, other: Seq<char>)
    requires
        other != pending.target_url,
    ensures
        context_for(Some(pending), pending.target_url) == Some(pending),
        pending_after(Some(pending), pending.target_url) is None,
        context_for(Some(pending), other) is None,
        pending_after(Some(pending), other) == Some(pending),
{
}

/// The search of an address is the value of the first query pair named `q` that is not blank, and
/// there is none only where no such pair is.
pub proof fn search_is_the_first_that_is_not_blank(pairs: Seq<(Seq<char>, Seq<char>)>)
    ensures
        match first_search(pairs) {
            Some(words) => exists|i: int|
                {
                    &&& 0 <= i < pairs.len()
                    &&& #[trigger] pairs[i] == ("q"@, words)
                    &&& trimmed(words).len() > 0
                    &&& forall|j: int| 0 <= j < i ==> (#[trigger] pairs[j]).0 != "q"@ || trimmed(pairs[j].1).len() == 0
                },
            None => forall|j: int|
                0 <= j < pairs.len() ==> (#[trigger] pairs[j]).0 != "q"@ || trimmed(pairs[j].1).len() == 0,
        },
    decreases pairs.len(),
{
    if pairs.len() > 0 && !(pairs[0].0 == "q"@ && trimmed(pairs[0].1).len() > 0) {
        let rest = pairs.skip(1);
        search_is_the_first_that_is_not_blank(rest);
        assert forall|j: int| 0 < j < pairs.len() implies #[trigger] pairs[j] == rest[j - 1] by {}
        match first_search(rest) {
            Some(words) => {
                let i = choose|i: int|
                    {
                        &&& 0 <= i < rest.len()
                        &&& #[trigger] rest[i] == ("q"@, words)
                        &&& trimmed(words).len() > 0
                        &&& forall|j: int|
                            0 <= j < i ==> (#[trigger] rest[j]).0 != "q"@ || trimmed(rest[j].1).len() == 0
                    };
                assert(pairs[i + 1] == ("q"@, words));
            },
            None => {},
        }
    } else if pairs.len() > 0 {
        assert(pairs[0] == ("q"@, pairs[0].1));
    }
}

/// Only the search engine's own addresses carry a search, with or without `www`.
pub proof fn only_the_search_engine_is_searched(address: AddressView)
    ensures
        address.host == Some("duckduckgo.com"@) || address.host == Some("www.duckduckgo.com"@) ==> search_of(address)
            == first_search(address.pairs),
        address.host != Some("duckduckgo.com"@) && address.host != Some("www.duckduckgo.com"@) ==> search_of(address)
            is None,
{
}

/// The statuses are stored under the names that the database allows.
pub proof fn statuses_have_the_names_of_the_database()
    ensures
        NavigationStatus::Attempted.name() == "attempted"@,
        NavigationStatus::Started.name() == "started"@,
        NavigationStatus::Completed.name() == "completed"@,
{
}

/// Every value of an entry is stored in the column of its name, and every column is read as the
/// value of its name.
pub proof fn columns_hold_their_values(entry: HistoryEntryView, row: HistoryRowView)
    ensures
        fits_in_row(entry) ==> {
            let stored = row_of_entry(entry);
            &&& stored.id == entry.id
            &&& stored.attempted_at == entry.attempted_at
            &&& stored.updated_at == entry.updated_at
            &&& stored.url == entry.url
            &&& stored.title == entry.title
            &&& stored.status == entry.status.name()
            &&& stored.source == entry.source
            &&& stored.submitted_input == entry.submitted_input
            &&& stored.search_query == entry.search_query
            &&& stored.search_url == entry.search_url
        },
        entry_of_row(row) matches Ok(read) ==> {
            &&& read.id == row.id
            &&& read.attempted_at == row.attempted_at
            &&& read.updated_at == row.updated_at
            &&& read.url == row.url
            &&& read.title == row.title
            &&& read.status.name() == row.status
            &&& read.source == row.source
            &&& read.submitted_input == row.submitted_input
            &&& read.search_query == row.search_query
            &&& read.search_url == row.search_url
        },
        fits_in_row(entry) <==> entry.id <= i64::MAX && entry.attempted_at <= i64::MAX && entry.updated_at <= i64::MAX,
{
}

/// A row is read unless a number in it is negative or its status has no meaning, and the message
/// names what is wrong with it first.
pub proof fn unreadable_row_is_explained(row: HistoryRowView)
    ensures
        ({
            let known = row.status == "attempted"@ || row.status == "started"@ || row.status == "completed"@;
            &&& entry_of_row(row) is Ok <==> row.id >= 0 && row.attempted_at >= 0 && row.updated_at >= 0 && known
            &&& row.id < 0 ==> entry_of_row(row) == Err::<HistoryEntryView, Seq<char>>(
                "History database contains a negative "@ + "ID"@ + "."@,
            )
            &&& row.id >= 0 && row.attempted_at < 0 ==> entry_of_row(row) == Err::<HistoryEntryView, Seq<char>>(
                "History database contains a negative "@ + "attempt timestamp"@ + "."@,
            )
            &&& row.id >= 0 && row.attempted_at >= 0 && row.updated_at < 0 ==> entry_of_row(row) == Err::<
                HistoryEntryView,
                Seq<char>,
            >("History database contains a negative "@ + "update timestamp"@ + "."@)
            &&& row.id >= 0 && row.attempted_at >= 0 && row.updated_at >= 0 && !known ==> entry_of_row(row) == Err::<
                HistoryEntryView,
                Seq<char>,
            >("History database contains an invalid navigation status: "@ + row.status)
        }),
{
}

/// The row to write, if any, when a page of the entry `id` shows `title` at `now`.
pub open spec fn shown_title_change(
    stored: Option<HistoryRowView>,
    id: u64,
    title: Seq<char>,
    now: u64,
) -> Option<HistoryRowView> {
    if trimmed(title).len() == 0 {
        None
    } else {
        title_change(stored, id, trimmed(title), now)
    }
}

/// A visit that comes further gets its new status and the time of the change, and one whose page
/// shows a title gets that title, without the white space around it, and the time. Nothing else of
/// the visit changes. What is no change, a blank title and an event of another visit lead to no
/// write.
pub proof fn event_changes_its_column_and_the_time(
    row: HistoryRowView,
    id: u64,
    status: NavigationStatus,
    title: Seq<char>,
    now: u64,
)
    requires
        now <= i64::MAX,
    ensures
        match status_change(Some(row), id, status, now) {
            Some(after) => {
                &&& row.id == id && row.status != status.name()
                &&& after.status == status.name()
                &&& after.updated_at == now
                &&& after.id == row.id && after.attempted_at == row.attempted_at && after.url == row.url
                &&& after.title == row.title && after.source == row.source
                &&& after.submitted_input == row.submitted_input
                &&& after.search_query == row.search_query && after.search_url == row.search_url
            },
            None => row.id != id || row.status == status.name(),
        },
        match shown_title_change(Some(row), id, title, now) {
            Some(after) => {
                &&& row.id == id && trimmed(title).len() > 0 && row.title != Some(trimmed(title))
                &&& after.title == Some(trimmed(title))
                &&& after.updated_at == now
                &&& after.id == row.id && after.attempted_at == row.attempted_at && after.url == row.url
                &&& after.status == row.status && after.source == row.source
                &&& after.submitted_input == row.submitted_input
                &&& after.search_query == row.search_query && after.search_url == row.search_url
            },
            None => row.id != id || trimmed(title).len() == 0 || row.title == Some(trimmed(title)),
        },
{
}

/// An entry that SQLite has stored under an ID.
pub open spec fn stored_under(entry: HistoryEntryView, row_id: i64) -> HistoryEntryView {
    HistoryEntryView { id: row_id as u64, ..entry }
}

/// Storing an entry gives it the ID of its row and changes nothing else of it.
pub proof fn stored_entry_gets_its_id(entry: HistoryEntryView, row_id: i64)
    requires
        row_id >= 0,
    ensures
        ({
            let stored = stored_under(entry, row_id);
            &&& stored.id == row_id
            &&& stored.attempted_at == entry.attempted_at && stored.updated_at == entry.updated_at
            &&& stored.url == entry.url && stored.title == entry.title
            &&& stored.status == entry.status && stored.source == entry.source
            &&& stored.submitted_input == entry.submitted_input
            &&& stored.search_query == entry.search_query && stored.search_url == entry.search_url
        }),
{
}

/// What comes of an attempt to reach `url` at `now`, where `pending` is what the browser has asked for:
/// what it still waits for, and the entry, if the time can be stored.
pub open spec fn attempted(pending: Option<PendingNavigationView>, url: Seq<char>, now: u64) -> (
    Option<PendingNavigationView>,
    Option<HistoryEntryView>,
) {
    (
        pending_after(pending, url),
        if now <= i64::MAX {
            Some(attempt_of(context_for(pending, url), search_of_text(url), url, now))
        } else {
            None
        },
    )
}

/// Every attempt whose time can be stored is recorded, whatever was asked for, and uses up what was
/// asked for if that was for its address: the next attempt to reach the address gets nothing of it.
pub proof fn every_attempt_is_recorded(pending: Option<PendingNavigationView>, url: Seq<char>, now: u64, later: u64)
    requires
        now <= 9_223_372_036_854_775_807 && later <= 9_223_372_036_854_775_807,
    ensures
        attempted(pending, url, now).1 matches Some(entry) && entry.url == url && entry.attempted_at == now,
        pending is Some && pending->0.target_url == url ==> attempted(pending, url, now).0 is None,
        pending is Some && pending->0.target_url != url ==> attempted(pending, url, now).0 == pending,
        pending is None ==> attempted(pending, url, now).0 is None,
        attempted(attempted(pending, url, now).0, url, later).1 == attempted(None, url, later).1,
{
}

/// A text carries a search exactly if it is an address of the search engine that has one.
pub proof fn text_carries_the_search_of_its_address(url: Seq<char>, address: AddressView)
    ensures
        parsed_address(url) is Err ==> search_of_text(url) is None,
        parsed_address(url) == Ok::<AddressView, Seq<char>>(address) && (address.host == Some("duckduckgo.com"@)
            || address.host == Some("www.duckduckgo.com"@)) ==> search_of_text(url) == first_search(address.pairs),
        parsed_address(url) == Ok::<AddressView, Seq<char>>(address) && address.host != Some("duckduckgo.com"@)
            && address.host != Some("www.duckduckgo.com"@) ==> search_of_text(url) is None,
{
}

} // verus!
