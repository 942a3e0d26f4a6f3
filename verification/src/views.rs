//! The web views behind the tabs: what is done to them, step by step, so that the tab at the front
//! is the one that is seen.

use crate::tabs::{
    activated, active_label, is_open, place, rolled_back, shown_tabs, TabManager, TabsView,
};
use crate::text::opt_text;
use crate::window::{front_summary, hidden_label, page_title};
use vstd::prelude::*;

verus! {

/// One step on a web view, which its label names. Steps are done in order; one that fails ends
/// them, if not said otherwise.
#[derive(Debug)]
pub enum ViewStep {
    /// Hides the web view that was at the front, if it is still there.
    Leave(String),
    Hide(String),
    Show(String),
    Focus(String),
    /// Puts the keyboard on the toolbar.
    FocusChrome,
    /// Puts the toolbar above all web views.
    RaiseChrome,
    /// Gives all web views their places.
    Layout,
    Navigate { label: String, url: String },
    /// Closes the web view of a tab that could not be opened, if it is there; a failure is ignored.
    Abandon(String),
    /// Gives the window a title; a failure is ignored.
    Title(String),
    /// Tells the window of the tabs; a failure is ignored.
    ShowTabs,
}

/// A step with its texts as sequences of characters.
pub enum ViewStepView {
    Leave(Seq<char>),
    Hide(Seq<char>),
    Show(Seq<char>),
    Focus(Seq<char>),
    FocusChrome,
    RaiseChrome,
    Layout,
    Navigate { label: Seq<char>, url: Seq<char> },
    Abandon(Seq<char>),
    Title(Seq<char>),
    ShowTabs,
}

impl View for ViewStep {
    type V = ViewStepView;

    open spec fn view(&self) -> ViewStepView {
        match self {
            ViewStep::Leave(label) => ViewStepView::Leave(label@),
            ViewStep::Hide(label) => ViewStepView::Hide(label@),
            ViewStep::Show(label) => ViewStepView::Show(label@),
            ViewStep::Focus(label) => ViewStepView::Focus(label@),
            ViewStep::FocusChrome => ViewStepView::FocusChrome,
            ViewStep::RaiseChrome => ViewStepView::RaiseChrome,
            ViewStep::Layout => ViewStepView::Layout,
            ViewStep::Navigate { label, url } => ViewStepView::Navigate { label: label@, url: url@ },
            ViewStep::Abandon(label) => ViewStepView::Abandon(label@),
            ViewStep::Title(title) => ViewStepView::Title(title@),
            ViewStep::ShowTabs => ViewStepView::ShowTabs,
        }
    }
}

/// The views of steps.
pub open spec fn step_views(steps: Seq<ViewStep>) -> Seq<ViewStepView> {
    Seq::new(steps.len(), |i: int| steps[i]@)
}

/// Hides what was at the front, unless that is what comes there.
pub open spec fn leaving(old_label: Option<Seq<char>>, new_label: Seq<char>) -> Seq<ViewStepView> {
    match old_label {
        Some(label) => if label == new_label {
            Seq::empty()
        } else {
            seq![ViewStepView::Leave(label)]
        },
        None => Seq::empty(),
    }
}

/// Shows the web view that comes to the front, or keeps it hidden where all pages are.
pub open spec fn arriving(label: Seq<char>, hidden: bool) -> Seq<ViewStepView> {
    if hidden {
        seq![ViewStepView::Hide(label)]
    } else {
        seq![ViewStepView::Show(label)]
    }
}

/// Puts the keyboard on a web view that is seen.
pub open spec fn focusing(label: Seq<char>, hidden: bool, focus: bool) -> Seq<ViewStepView> {
    if focus && !hidden {
        seq![ViewStepView::Focus(label)]
    } else {
        Seq::empty()
    }
}

/// Gives the window the title of the tab at the front.
pub open spec fn titling(state: TabsView) -> Seq<ViewStepView> {
    match front_summary(shown_tabs(state)) {
        Some(summary) => seq![ViewStepView::Title(page_title(summary.title, state.profile_name))],
        None => Seq::empty(),
    }
}

/// The label of the web view of a tab.
pub open spec fn label_at(state: TabsView, id: u64) -> Seq<char> {
    state.tabs[place(state.tabs, id) as int].label
}

/// The steps that bring an open tab to the front.
pub open spec fn activation(state: TabsView, id: u64, hidden: bool, focus: bool) -> Seq<ViewStepView> {
    let label = label_at(state, id);
    leaving(active_label(state), label) + arriving(label, hidden) + focusing(label, hidden, focus) + titling(
        activated(state, id),
    ) + seq![ViewStepView::ShowTabs]
}

/// The steps that follow once the web view of a new tab is there. Where it is to go somewhere, the
/// last of them send it there.
pub open spec fn settling(state: TabsView, id: u64, hidden: bool, url: Option<Seq<char>>) -> Seq<ViewStepView> {
    let label = label_at(state, id);
    leaving(active_label(state), label) + arriving(label, hidden) + seq![ViewStepView::RaiseChrome] + (match url {
        Some(target) => seq![ViewStepView::Navigate { label, url: target }] + focusing(label, hidden, true),
        None => Seq::empty(),
    }) + seq![ViewStepView::ShowTabs]
}

/// The steps that follow when a new tab could not be opened: back to the tab that was at the
/// front.
pub open spec fn retreat(
    state: TabsView,
    id: u64,
    label: Seq<char>,
    previous: Option<u64>,
    hidden: bool,
) -> Seq<ViewStepView> {
    let left = rolled_back(state, id);
    seq![ViewStepView::Abandon(label)] + (match previous {
        Some(front) => if is_open(left.tabs, front) {
            activation(left, front, hidden, true)
        } else {
            Seq::empty()
        },
        None => Seq::empty(),
    })
}

/// Puts a step at the end.
fn add_step(steps: &mut Vec<ViewStep>, step: ViewStep)
    ensures
        step_views(final(steps)@) == step_views(old(steps)@) + seq![step@],
{
    let ghost before = steps@;
    steps.push(step);
    assert(step_views(steps@) =~= step_views(before) + seq![step@]);
}

/// Puts the steps at the end with which one web view takes the front from another.
fn add_exchange(steps: &mut Vec<ViewStep>, old_label: Option<String>, new_label: &String, hidden: bool)
    ensures
        step_views(final(steps)@) == step_views(old(steps)@) + leaving(opt_text(old_label), new_label@) + arriving(
            new_label@,
            hidden,
        ),
{
    let ghost before = step_views(steps@);
    match hidden_label(old_label, new_label.as_str()) {
        Some(label) => {
            add_step(steps, ViewStep::Leave(label));
        },
        None => {},
    }
    assert(step_views(steps@) =~= before + leaving(opt_text(old_label), new_label@));
    if hidden {
        add_step(steps, ViewStep::Hide(new_label.clone()));
    } else {
        add_step(steps, ViewStep::Show(new_label.clone()));
    }
}

/// The steps that show the page at the front or hide it behind the toolbar, which then fills the
/// window.
pub fn visibility_steps(label: String, visible: bool) -> (r: Vec<ViewStep>)
    ensures
        step_views(r@) == if visible {
            seq![ViewStepView::Layout, ViewStepView::Show(label@), ViewStepView::Focus(label@)]
        } else {
            seq![ViewStepView::Hide(label@), ViewStepView::Layout, ViewStepView::FocusChrome]
        },
        step_views(r@) == visibility(label@, visible),
{
    let mut steps: Vec<ViewStep> = Vec::new();
    assert(step_views(steps@) =~= Seq::empty());
    if visible {
        add_step(&mut steps, ViewStep::Layout);
        add_step(&mut steps, ViewStep::Show(label.clone()));
        add_step(&mut steps, ViewStep::Focus(label));
        assert(step_views(steps@) =~= seq![ViewStepView::Layout, ViewStepView::Show(label@), ViewStepView::Focus(label@)]);
    } else {
        add_step(&mut steps, ViewStep::Hide(label));
        add_step(&mut steps, ViewStep::Layout);
        add_step(&mut steps, ViewStep::FocusChrome);
        assert(step_views(steps@) =~= seq![ViewStepView::Hide(label@), ViewStepView::Layout, ViewStepView::FocusChrome]);
    }
    steps
}

impl TabManager {
    /// Brings a tab to the front. Gives the steps on the web views; `hidden` tells whether pages
    /// are hidden at the time, and `focus` whether the keyboard goes with the tab.
    pub fn show_tab(&mut self, id: u64, hidden: bool, focus: bool) -> (r: Result<Vec<ViewStep>, String>)
        ensures
            final(self)@ == activated(old(self)@, id),
            match r {
                Ok(steps) => {
                    &&& is_open(old(self)@.tabs, id)
                    &&& step_views(steps@) == activation(old(self)@, id, hidden, focus)
                },
                Err(message) => {
                    &&& !is_open(old(self)@.tabs, id)
                    &&& message@ == "That tab is no longer open."@
                },
            },
    {
        let ghost before = self@;
        let (old_label, label): (Option<String>, String) = match self.activate(id) {
            Ok(labels) => labels,
            Err(message) => {
                return Err(message);
            },
        };
        let mut steps: Vec<ViewStep> = Vec::new();
        assert(step_views(steps@) =~= Seq::empty());
        add_exchange(&mut steps, old_label, &label, hidden);
        if focus && !hidden {
            add_step(&mut steps, ViewStep::Focus(label));
        }
        match self.front_title() {
            Some(title) => {
                add_step(&mut steps, ViewStep::Title(title));
            },
            None => {},
        }
        add_step(&mut steps, ViewStep::ShowTabs);
        assert(step_views(steps@) =~= activation(before, id, hidden, focus));
        Ok(steps)
    }

    /// Brings a new tab to the front, once its web view is there, and sends it to `url`.
    pub fn settle_tab(&mut self, id: u64, hidden: bool, url: Option<String>) -> (r: Result<Vec<ViewStep>, String>)
        ensures
            final(self)@ == activated(old(self)@, id),
            match r {
                Ok(steps) => {
                    &&& is_open(old(self)@.tabs, id)
                    &&& step_views(steps@) == settling(old(self)@, id, hidden, opt_text(url))
                },
                Err(message) => {
                    &&& !is_open(old(self)@.tabs, id)
                    &&& message@ == "That tab is no longer open."@
                },
            },
    {
        let ghost before = self@;
        let (old_label, label): (Option<String>, String) = match self.activate(id) {
            Ok(labels) => labels,
            Err(message) => {
                return Err(message);
            },
        };
        let mut steps: Vec<ViewStep> = Vec::new();
        assert(step_views(steps@) =~= Seq::empty());
        add_exchange(&mut steps, old_label, &label, hidden);
        add_step(&mut steps, ViewStep::RaiseChrome);
        match url {
            Some(target) => {
                add_step(&mut steps, ViewStep::Navigate { label: label.clone(), url: target });
                if !hidden {
                    add_step(&mut steps, ViewStep::Focus(label));
                }
            },
            None => {},
        }
        add_step(&mut steps, ViewStep::ShowTabs);
        assert(step_views(steps@) =~= settling(before, id, hidden, opt_text(url)));
        Ok(steps)
    }

    /// Takes back a tab that could not be opened and returns to the one that was at the front.
    pub fn abandon_tab(&mut self, id: u64, label: String, previous: Option<u64>, hidden: bool) -> (r: Vec<ViewStep>)
        ensures
            final(self)@ == match previous {
                Some(front) => activated(rolled_back(old(self)@, id), front),
                None => rolled_back(old(self)@, id),
            },
            step_views(r@) == retreat(old(self)@, id, label@, previous, hidden),
            final(self)@ == abandoned(old(self)@, id, previous),
    {
        let ghost before = self@;
        self.rollback(id);
        let mut steps: Vec<ViewStep> = Vec::new();
        assert(step_views(steps@) =~= Seq::empty());
        add_step(&mut steps, ViewStep::Abandon(label));
        match previous {
            Some(front) => match self.show_tab(front, hidden, true) {
                Ok(more) => {
                    let mut rest: Vec<ViewStep> = more;
                    let ghost first = step_views(steps@);
                    let ghost second = step_views(rest@);
                    let ghost (a, b) = (steps@, rest@);
                    steps.append(&mut rest);
                    assert(steps@ =~= a + b);
                    assert(step_views(steps@) =~= first + second);
                },
                Err(_) => {},
            },
            None => {},
        }
        assert(step_views(steps@) =~= retreat(before, id, label@, previous, hidden));
        steps
    }
}

/// Whether a step lets a web view be seen.
pub open spec fn shows(step: ViewStepView, label: Seq<char>) -> bool {
    step == ViewStepView::Show(label)
}

/// Bringing a tab to the front shows no web view but its own and shows that only where pages are
/// not hidden, and it hides the one that was there.
pub proof fn only_the_front_is_shown(state: TabsView, id: u64, hidden: bool, focus: bool, other: Seq<char>)
    requires
        is_open(state.tabs, id),
        other != label_at(state, id),
    ensures
        ({
            let steps = activation(state, id, hidden, focus);
            &&& forall|i: int| 0 <= i < steps.len() ==> !shows(#[trigger] steps[i], other)
            &&& hidden ==> forall|i: int| 0 <= i < steps.len() ==> !shows(#[trigger] steps[i], label_at(state, id))
            &&& !hidden ==> exists|i: int| 0 <= i < steps.len() && shows(#[trigger] steps[i], label_at(state, id))
            &&& active_label(state) == Some(other) ==> exists|i: int|
                0 <= i < steps.len() && #[trigger] steps[i] == ViewStepView::Leave(other)
        }),
{
    let label = label_at(state, id);
    let steps = activation(state, id, hidden, focus);
    let away = leaving(active_label(state), label);
    if !hidden {
        assert(steps[away.len() as int] == ViewStepView::Show(label));
        assert(shows(steps[away.len() as int], label));
    }
    if active_label(state) == Some(other) {
        assert(steps[0] == ViewStepView::Leave(other));
    }
}

/// The steps that show the page at the front or hide it.
pub open spec fn visibility(label: Seq<char>, visible: bool) -> Seq<ViewStepView> {
    if visible {
        seq![ViewStepView::Layout, ViewStepView::Show(label), ViewStepView::Focus(label)]
    } else {
        seq![ViewStepView::Hide(label), ViewStepView::Layout, ViewStepView::FocusChrome]
    }
}

/// A page that is to be seen gets its place, is shown and then gets the keyboard, and is not hidden.
/// One that is to be hidden is hidden before the toolbar takes its place and the keyboard, and is
/// neither shown nor given the keyboard.
pub proof fn visible_page_has_the_keyboard(label: Seq<char>)
    ensures
        visibility(label, true).contains(ViewStepView::Show(label)),
        visibility(label, true).last() == ViewStepView::Focus(label),
        visibility(label, true)[0] == ViewStepView::Layout,
        !visibility(label, true).contains(ViewStepView::Hide(label)),
        visibility(label, false)[0] == ViewStepView::Hide(label),
        visibility(label, false).contains(ViewStepView::Layout),
        visibility(label, false).last() == ViewStepView::FocusChrome,
        !visibility(label, false).contains(ViewStepView::Show(label)),
        !visibility(label, false).contains(ViewStepView::Focus(label)),
{
    assert(visibility(label, true)[1] == ViewStepView::Show(label));
    assert(visibility(label, false)[1] == ViewStepView::Layout);
}

/// Whether the web view of the label gets the keyboard in some step.
pub open spec fn focuses(steps: Seq<ViewStepView>, label: Seq<char>) -> bool {
    steps.contains(ViewStepView::Focus(label))
}

/// Bringing a tab to the front gives it the keyboard exactly where that is asked for and pages are
/// seen, keeps it hidden where they are not, gives the window its title, and ends by showing the
/// tabs. The web view that was at the front is left before the new one is shown, and is not left
/// where it is the same.
pub proof fn tab_comes_to_the_front(state: TabsView, id: u64, hidden: bool, focus: bool)
    requires
        is_open(state.tabs, id),
    ensures
        ({
            let steps = activation(state, id, hidden, focus);
            let label = label_at(state, id);
            &&& focuses(steps, label) <==> focus && !hidden
            &&& steps.contains(ViewStepView::Hide(label)) <==> hidden
            &&& steps.contains(ViewStepView::Show(label)) <==> !hidden
            &&& !steps.contains(ViewStepView::Leave(label))
            &&& steps.last() == ViewStepView::ShowTabs
            &&& active_label(state) matches Some(old) ==> old != label ==> steps[0] == ViewStepView::Leave(old)
            &&& front_summary(shown_tabs(activated(state, id))) matches Some(summary) ==> steps[steps.len() - 2]
                == ViewStepView::Title(summary.title + " — "@ + state.profile_name + " — Folio"@)
        }),
{
    let steps = activation(state, id, hidden, focus);
    let label = label_at(state, id);
    let away = leaving(active_label(state), label);
    let n = away.len() as int;
    assert(steps[n] == if hidden {
        ViewStepView::Hide(label)
    } else {
        ViewStepView::Show(label)
    });
    if focus && !hidden {
        assert(steps[n + 1] == ViewStepView::Focus(label));
    }
    assert forall|i: int| 0 <= i < steps.len() implies (#[trigger] steps[i] == ViewStepView::Focus(label) ==> focus
        && !hidden) && (steps[i] == ViewStepView::Hide(label) ==> hidden) && (steps[i] == ViewStepView::Show(label)
        ==> !hidden) && steps[i] != ViewStepView::Leave(label) by {}
}

/// A new tab comes to the front in the same way, below the toolbar, and goes to its address if it has
/// one: it is sent there once and gets the keyboard where pages are seen. Without an address it goes
/// nowhere and gets no keyboard.
pub proof fn new_tab_goes_to_its_address(state: TabsView, id: u64, hidden: bool, url: Seq<char>)
    requires
        is_open(state.tabs, id),
    ensures
        ({
            let label = label_at(state, id);
            let sent = settling(state, id, hidden, Some(url));
            let idle = settling(state, id, hidden, None);
            &&& sent.contains(ViewStepView::Navigate { label, url })
            &&& forall|i: int| 0 <= i < sent.len() && (#[trigger] sent[i]) is Navigate ==> sent[i]
                == ViewStepView::Navigate { label, url }
            &&& focuses(sent, label) <==> !hidden
            &&& forall|i: int| 0 <= i < idle.len() ==> !((#[trigger] idle[i]) is Navigate) && !(idle[i] is Focus)
            &&& sent.contains(ViewStepView::RaiseChrome) && idle.contains(ViewStepView::RaiseChrome)
            &&& sent.contains(ViewStepView::Show(label)) <==> !hidden
            &&& idle.contains(ViewStepView::Show(label)) <==> !hidden
            &&& sent.contains(ViewStepView::Hide(label)) <==> hidden
            &&& idle.contains(ViewStepView::Hide(label)) <==> hidden
            &&& sent.last() == ViewStepView::ShowTabs && idle.last() == ViewStepView::ShowTabs
            &&& active_label(state) matches Some(old) ==> old != label ==> sent[0] == ViewStepView::Leave(old) && idle[0]
                == ViewStepView::Leave(old)
        }),
{
    let label = label_at(state, id);
    let sent = settling(state, id, hidden, Some(url));
    let idle = settling(state, id, hidden, None);
    let n = leaving(active_label(state), label).len() as int;
    let arrived = if hidden {
        ViewStepView::Hide(label)
    } else {
        ViewStepView::Show(label)
    };
    assert(sent[n] == arrived && idle[n] == arrived);
    assert(sent[n + 1] == ViewStepView::RaiseChrome && idle[n + 1] == ViewStepView::RaiseChrome);
    assert(sent[n + 2] == ViewStepView::Navigate { label, url });
    if !hidden {
        assert(sent[n + 3] == ViewStepView::Focus(label));
    }
}

/// A tab that could not be opened has its web view closed first. Then the tab that was at the front
/// comes back there with the keyboard, if it is still open, in the steps that bring any tab there.
pub proof fn failed_tab_gives_way(
    state: TabsView,
    id: u64,
    label: Seq<char>,
    front: u64,
    hidden: bool,
)
    ensures
        retreat(state, id, label, None, hidden) == seq![ViewStepView::Abandon(label)],
        retreat(state, id, label, Some(front), hidden)[0] == ViewStepView::Abandon(label),
        !is_open(rolled_back(state, id).tabs, front) ==> retreat(state, id, label, Some(front), hidden).len() == 1,
        is_open(rolled_back(state, id).tabs, front) ==> {
            &&& retreat(state, id, label, Some(front), hidden).skip(1) == activation(
                rolled_back(state, id),
                front,
                hidden,
                true,
            )
            &&& focuses(
                retreat(state, id, label, Some(front), hidden),
                label_at(rolled_back(state, id), front),
            ) <==> !hidden
        },
{
    let steps = retreat(state, id, label, Some(front), hidden);
    let left = rolled_back(state, id);
    assert(retreat(state, id, label, None, hidden) =~= seq![ViewStepView::Abandon(label)]);
    if is_open(left.tabs, front) {
        let back = activation(left, front, hidden, true);
        let shown = label_at(left, front);
        assert(steps.skip(1) =~= back);
        tab_comes_to_the_front(left, front, hidden, true);
        assert(forall|i: int| 0 < i < steps.len() ==> #[trigger] steps[i] == back[i - 1]);
        if focuses(back, shown) {
            let k = choose|k: int| 0 <= k < back.len() && back[k] == ViewStepView::Focus(shown);
            assert(steps[k + 1] == ViewStepView::Focus(shown));
        }
        if focuses(steps, shown) {
            let k = choose|k: int| 0 <= k < steps.len() && steps[k] == ViewStepView::Focus(shown);
            assert(back[k - 1] == ViewStepView::Focus(shown));
        }
    }
}

/// The tabs once one that could not be opened is taken back and the tab that was at the front returns.
pub open spec fn abandoned(state: TabsView, id: u64, previous: Option<u64>) -> TabsView {
    match previous {
        Some(front) => activated(rolled_back(state, id), front),
        None => rolled_back(state, id),
    }
}

/// A tab that was opened, came to the front and then could not be used leaves the tabs as they were
/// before it was opened, with the same tab at the front, but for the ID that it used up.
pub proof fn abandoned_tab_leaves_no_trace(state: TabsView)
    requires
        crate::tab_laws::consistent(state),
        state.next_id < u64::MAX,
        state.active_id is Some,
    ensures
        ({
            let opened = activated(crate::tabs::reserved(state), state.next_id);
            abandoned(opened, state.next_id, state.active_id) == (TabsView {
                next_id: (state.next_id + 1) as u64,
                ..state
            })
        }),
{
    crate::tab_laws::failed_opening_leaves_no_trace(state);
}

} // verus!
