//! The command line: which of the two processes an executable is launched as.

use crate::paths::texts;
use crate::profile::{id_refusal, is_profile_id, ProfileId};
use crate::text::same_text;
use vstd::prelude::*;

verus! {

/// Which of the two processes this executable was launched as.
#[derive(Debug)]
pub enum AppMode {
    /// The profile picker that appears on every normal launch.
    Picker,
    /// A dedicated browser process for one profile.
    Browser { profile_id: ProfileId, launch_token: Option<ProfileId> },
}

/// A mode with its texts as sequences of characters.
pub enum AppModeView {
    Picker,
    Browser { profile_id: Seq<char>, launch_token: Option<Seq<char>> },
}

/// The view of an optional identifier.
pub open spec fn opt_id(id: Option<ProfileId>) -> Option<Seq<char>> {
    match id {
        Some(present) => Some(present@),
        None => None,
    }
}

impl View for AppMode {
    type V = AppModeView;

    open spec fn view(&self) -> AppModeView {
        match self {
            AppMode::Picker => AppModeView::Picker,
            AppMode::Browser { profile_id, launch_token } => AppModeView::Browser {
                profile_id: profile_id@,
                launch_token: opt_id(*launch_token),
            },
        }
    }
}

/// Why no process starts.
#[derive(Debug)]
pub enum CliExit {
    /// Help was asked for.
    Help,
    /// The arguments make no sense.
    Fatal(String),
}

/// A refusal to start with its text as a sequence of characters.
pub enum CliExitView {
    Help,
    Fatal(Seq<char>),
}

impl View for CliExit {
    type V = CliExitView;

    open spec fn view(&self) -> CliExitView {
        match self {
            CliExit::Help => CliExitView::Help,
            CliExit::Fatal(message) => CliExitView::Fatal(message@),
        }
    }
}

/// The view of what the arguments ask for.
pub open spec fn parse_view(r: Result<AppMode, CliExit>) -> Result<AppModeView, CliExitView> {
    match r {
        Ok(mode) => Ok(mode@),
        Err(exit) => Err(exit@),
    }
}

/// A text as `Debug` writes it, in quotation marks and with escapes.
pub uninterp spec fn debug_text(text: Seq<char>) -> Seq<char>;

/// Formats a text with `{:?}`, that is, with the `Debug` of `str`. What it writes depends on the
/// text alone and is named `debug_text`.
#[verifier::external_body]
fn format_debug(text: &str) -> (r: String)
    ensures
        r@ == debug_text(text@),
{
    format!("{text:?}")
}

/// What is said about a value that is no identifier.
pub open spec fn invalid_value(option: Seq<char>, value: Seq<char>) -> Seq<char> {
    "Invalid "@ + option + " "@ + debug_text(value) + ": "@ + id_refusal(value)
}

/// What the rest of the arguments asks for, given what those before it have set. A later option
/// replaces an earlier one of its kind.
pub open spec fn scan(
    args: Seq<Seq<char>>,
    profile: Option<Seq<char>>,
    token: Option<Seq<char>>,
) -> Result<AppModeView, CliExitView>
    decreases args.len(),
{
    if args.len() == 0 {
        match profile {
            Some(profile_id) => Ok(AppModeView::Browser { profile_id, launch_token: token }),
            None => if token is Some {
                Err(CliExitView::Fatal("--launch-token requires --profile."@))
            } else {
                Ok(AppModeView::Picker)
            },
        }
    } else if args[0] == "--profile"@ || args[0] == "-p"@ {
        if args.len() < 2 {
            Err(CliExitView::Fatal("--profile requires a profile id."@))
        } else if is_profile_id(args[1]) {
            scan(args.skip(2), Some(args[1]), token)
        } else {
            Err(CliExitView::Fatal(invalid_value("--profile id"@, args[1])))
        }
    } else if args[0] == "--launch-token"@ {
        if args.len() < 2 {
            Err(CliExitView::Fatal("--launch-token requires a token."@))
        } else if is_profile_id(args[1]) {
            scan(args.skip(2), profile, Some(args[1]))
        } else {
            Err(CliExitView::Fatal(invalid_value("--launch-token"@, args[1])))
        }
    } else if args[0] == "--help"@ || args[0] == "-h"@ {
        Err(CliExitView::Help)
    } else {
        Err(CliExitView::Fatal("Unknown argument: "@ + args[0]))
    }
}

/// The refusal of a value that is no identifier.
fn refuse_value(option: &str, value: &str, error: &str) -> (r: CliExit)
    requires
        error@ == id_refusal(value@),
    ensures
        r@ == CliExitView::Fatal(invalid_value(option@, value@)),
{
    let mut message: String = "Invalid ".to_owned();
    message.append(option);
    message.append(" ");
    message.append(format_debug(value).as_str());
    message.append(": ");
    message.append(error);
    CliExit::Fatal(message)
}

/// What the arguments, without the name of the executable, ask for.
pub fn parse(args: &Vec<String>) -> (r: Result<AppMode, CliExit>)
    ensures
        parse_view(r) == scan(texts(args@), None, None),
{
    let ghost all = texts(args@);
    let mut profile: Option<ProfileId> = None;
    let mut launch_token: Option<ProfileId> = None;
    let mut i: usize = 0;
    assert(all.skip(0) =~= all);
    while i < args.len()
        invariant
            i <= args@.len(),
            all == texts(args@),
            scan(all, None, None) == scan(all.skip(i as int), opt_id(profile), opt_id(launch_token)),
        decreases args@.len() - i,
    {
        let ghost rest = all.skip(i as int);
        let arg: &str = args[i].as_str();
        assert(rest[0] == arg@);
        if same_text(arg, "--profile") || same_text(arg, "-p") {
            if args.len() - i < 2 {
                return Err(CliExit::Fatal("--profile requires a profile id.".to_owned()));
            }
            let value: &str = args[i + 1].as_str();
            assert(rest[1] == value@);
            match ProfileId::parse(value) {
                Ok(id) => {
                    profile = Some(id);
                },
                Err(error) => {
                    return Err(refuse_value("--profile id", value, error.as_str()));
                },
            }
            assert(rest.skip(2) =~= all.skip(i + 2));
            i = i + 2;
        } else if same_text(arg, "--launch-token") {
            if args.len() - i < 2 {
                return Err(CliExit::Fatal("--launch-token requires a token.".to_owned()));
            }
            let value: &str = args[i + 1].as_str();
            assert(rest[1] == value@);
            match ProfileId::parse(value) {
                Ok(token) => {
                    launch_token = Some(token);
                },
                Err(error) => {
                    return Err(refuse_value("--launch-token", value, error.as_str()));
                },
            }
            assert(rest.skip(2) =~= all.skip(i + 2));
            i = i + 2;
        } else if same_text(arg, "--help") || same_text(arg, "-h") {
            return Err(CliExit::Help);
        } else {
            let mut message: String = "Unknown argument: ".to_owned();
            message.append(arg);
            return Err(CliExit::Fatal(message));
        }
    }
    assert(all.skip(i as int).len() == 0);
    match profile {
        Some(profile_id) => Ok(AppMode::Browser { profile_id, launch_token }),
        None => {
            if launch_token.is_some() {
                Err(CliExit::Fatal("--launch-token requires --profile.".to_owned()))
            } else {
                Ok(AppMode::Picker)
            }
        },
    }
}

/// What is shown when help is asked for.
pub fn help_text() -> (r: String)
    ensures
        r@ == "Folio Browser\n\nUSAGE:\n    folio-browser [OPTIONS]\n\nOPTIONS:\n    -p, --profile <id>    Open a specific profile directly, skipping the picker\n    -h, --help            Print help"@,
{
    "Folio Browser\n\nUSAGE:\n    folio-browser [OPTIONS]\n\nOPTIONS:\n    -p, --profile <id>    Open a specific profile directly, skipping the picker\n    -h, --help            Print help".to_owned()
}

/// The arguments with which the picker starts a browser.
pub open spec fn launch_args(id: Seq<char>, token: Seq<char>) -> Seq<Seq<char>> {
    seq!["--profile"@, id, "--launch-token"@, token]
}

/// The arguments with which the picker starts a browser for the profile.
pub fn launch_arguments(id: &ProfileId, token: &ProfileId) -> (r: Vec<String>)
    ensures
        texts(r@) == launch_args(id@, token@),
{
    let r: Vec<String> = vec![
        "--profile".to_owned(),
        id.as_str().to_owned(),
        "--launch-token".to_owned(),
        token.as_str().to_owned(),
    ];
    assert(texts(r@) =~= launch_args(id@, token@));
    r
}

/// Without arguments the picker appears.
pub proof fn no_arguments_show_the_picker()
    ensures
        scan(Seq::empty(), None, None) == Ok::<AppModeView, CliExitView>(AppModeView::Picker),
{
}

/// A profile on the command line opens its browser.
pub proof fn profile_argument_opens_its_browser(id: Seq<char>)
    requires
        is_profile_id(id),
    ensures
        scan(seq!["--profile"@, id], None, None) == Ok::<AppModeView, CliExitView>(
            AppModeView::Browser { profile_id: id, launch_token: None },
        ),
{
    reveal_with_fuel(scan, 2);
    assert(seq!["--profile"@, id].skip(2) =~= Seq::<Seq<char>>::empty());
}

/// A browser that the picker starts reads the profile and the token that the picker means.
pub proof fn browser_reads_what_the_picker_writes(id: Seq<char>, token: Seq<char>)
    requires
        is_profile_id(id),
        is_profile_id(token),
    ensures
        scan(launch_args(id, token), None, None) == Ok::<AppModeView, CliExitView>(
            AppModeView::Browser { profile_id: id, launch_token: Some(token) },
        ),
{
    reveal_strlit("--profile");
    reveal_strlit("-p");
    reveal_strlit("--launch-token");
    reveal_with_fuel(scan, 3);
    let args = launch_args(id, token);
    assert("--launch-token"@.len() == 14);
    assert("--profile"@.len() == 9);
    assert("-p"@.len() == 2);
    assert(args.skip(2) =~= seq!["--launch-token"@, token]);
    assert(args.skip(2).skip(2) =~= Seq::<Seq<char>>::empty());
    assert(scan(args.skip(2).skip(2), Some(id), Some(token)) == Ok::<AppModeView, CliExitView>(
        AppModeView::Browser { profile_id: id, launch_token: Some(token) },
    ));
    assert(scan(args.skip(2), Some(id), None) == scan(args.skip(2).skip(2), Some(id), Some(token)));
}

/// The picker appears only where there are no arguments at all.
pub proof fn picker_needs_an_empty_command_line(
    args: Seq<Seq<char>>,
    profile: Option<Seq<char>>,
    token: Option<Seq<char>>,
)
    ensures
        scan(args, profile, token) == Ok::<AppModeView, CliExitView>(AppModeView::Picker) ==> profile is None
            && token is None && args.len() == 0,
    decreases args.len(),
{
    if args.len() >= 2 && is_profile_id(args[1]) {
        picker_needs_an_empty_command_line(args.skip(2), Some(args[1]), token);
        picker_needs_an_empty_command_line(args.skip(2), profile, Some(args[1]));
    }
}

/// The short form of an option means what the long one means, whatever follows and whatever was set
/// before.
pub proof fn short_options_mean_the_long_ones(
    rest: Seq<Seq<char>>,
    profile: Option<Seq<char>>,
    token: Option<Seq<char>>,
)
    ensures
        scan(seq!["-p"@] + rest, profile, token) == scan(seq!["--profile"@] + rest, profile, token),
        scan(seq!["-h"@] + rest, profile, token) == scan(seq!["--help"@] + rest, profile, token),
        scan(seq!["--help"@] + rest, profile, token) == Err::<AppModeView, CliExitView>(CliExitView::Help),
{
    lemma_options();
    if rest.len() > 0 {
        assert((seq!["-p"@] + rest).skip(2) =~= (seq!["--profile"@] + rest).skip(2));
    }
}

/// The options are different texts.
proof fn lemma_options()
    ensures
        "--profile"@ != "-p"@ && "--profile"@ != "--launch-token"@ && "--profile"@ != "--help"@ && "--profile"@ != "-h"@,
        "-p"@ != "--launch-token"@ && "-p"@ != "--help"@ && "-p"@ != "-h"@,
        "--launch-token"@ != "--help"@ && "--launch-token"@ != "-h"@ && "--help"@ != "-h"@,
{
    reveal_strlit("--profile");
    reveal_strlit("-p");
    reveal_strlit("--launch-token");
    reveal_strlit("--help");
    reveal_strlit("-h");
    assert("--profile"@.len() == 9 && "-p"@.len() == 2 && "--launch-token"@.len() == 14 && "--help"@.len() == 6
        && "-h"@.len() == 2);
    assert("-p"@[1] == 'p' && "-h"@[1] == 'h');
}

/// An option with a valid value is taken and the rest is read as if it stood alone, with that value
/// set: a later option replaces an earlier one, and it does not matter whether the profile or the
/// token comes first.
pub proof fn options_are_taken_one_by_one(rest: Seq<Seq<char>>, id: Seq<char>, earlier: Seq<char>, value: Seq<char>)
    requires
        is_profile_id(id) && is_profile_id(earlier) && is_profile_id(value),
    ensures
        scan(seq!["--profile"@, earlier, "--profile"@, id] + rest, None, None) == scan(
            seq!["--profile"@, id] + rest,
            None,
            None,
        ),
        scan(seq!["--profile"@, id, "--launch-token"@, value] + rest, None, None) == scan(
            seq!["--launch-token"@, value, "--profile"@, id] + rest,
            None,
            None,
        ),
        scan(seq!["--launch-token"@, earlier, "--launch-token"@, value] + rest, Some(id), None) == scan(
            seq!["--launch-token"@, value] + rest,
            Some(id),
            None,
        ),
{
    lemma_options();
    reveal_with_fuel(scan, 3);
    let a = seq!["--profile"@, earlier, "--profile"@, id] + rest;
    assert(a.skip(2) =~= seq!["--profile"@, id] + rest);
    assert(a.skip(2).skip(2) =~= rest);
    let b = seq!["--profile"@, id, "--launch-token"@, value] + rest;
    assert(b.skip(2) =~= seq!["--launch-token"@, value] + rest);
    assert(b.skip(2).skip(2) =~= rest);
    let c = seq!["--launch-token"@, value, "--profile"@, id] + rest;
    assert(c.skip(2) =~= seq!["--profile"@, id] + rest);
    assert(c.skip(2).skip(2) =~= rest);
    let d = seq!["--launch-token"@, earlier, "--launch-token"@, value] + rest;
    assert(d.skip(2) =~= seq!["--launch-token"@, value] + rest);
    assert(d.skip(2).skip(2) =~= rest);
}

/// What makes no sense starts nothing, and what is wrong is told: an unknown argument, an option
/// without its value, a value that is no identifier and a token without a profile.
pub proof fn senseless_arguments_are_refused(
    rest: Seq<Seq<char>>,
    arg: Seq<char>,
    profile: Option<Seq<char>>,
    token: Option<Seq<char>>,
    value: Seq<char>,
)
    ensures
        arg != "--profile"@ && arg != "-p"@ && arg != "--launch-token"@ && arg != "--help"@ && arg != "-h"@ ==> scan(
            seq![arg] + rest,
            profile,
            token,
        ) == Err::<AppModeView, CliExitView>(CliExitView::Fatal("Unknown argument: "@ + arg)),
        scan(seq!["--profile"@], profile, token) == Err::<AppModeView, CliExitView>(
            CliExitView::Fatal("--profile requires a profile id."@),
        ),
        scan(seq!["--launch-token"@], profile, token) == Err::<AppModeView, CliExitView>(
            CliExitView::Fatal("--launch-token requires a token."@),
        ),
        !is_profile_id(value) ==> {
            &&& scan(seq!["--profile"@, value] + rest, profile, token) == Err::<AppModeView, CliExitView>(
                CliExitView::Fatal(
                    "Invalid "@ + "--profile id"@ + " "@ + debug_text(value) + ": "@ + id_refusal(value),
                ),
            )
            &&& scan(seq!["--launch-token"@, value] + rest, profile, token) == Err::<AppModeView, CliExitView>(
                CliExitView::Fatal(
                    "Invalid "@ + "--launch-token"@ + " "@ + debug_text(value) + ": "@ + id_refusal(value),
                ),
            )
        },
        is_profile_id(value) ==> scan(seq!["--launch-token"@, value], None, token) == Err::<AppModeView, CliExitView>(
            CliExitView::Fatal("--launch-token requires --profile."@),
        ),
{
    lemma_options();
    reveal_with_fuel(scan, 2);
    assert(seq!["--launch-token"@, value].skip(2) =~= Seq::<Seq<char>>::empty());
}

} // verus!
