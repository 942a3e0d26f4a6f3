//! Names for downloaded files, made safe for the file system.

use crate::text::{
    chars_of, control, lemma_trim_end, lemma_trim_start, text_of, trim, trim_end, trim_start, trimmed,
    white_space,
};
use vstd::prelude::*;

verus! {

/// Whether a character is a control character or has a meaning in paths.
pub open spec fn path_syntax(c: char) -> bool {
    ||| control(c)
    ||| c == '<'
    ||| c == '>'
    ||| c == ':'
    ||| c == '"'
    ||| c == '/'
    ||| c == '\\'
    ||| c == '|'
    ||| c == '?'
    ||| c == '*'
}

/// `s` with an underscore in place of each character of path syntax.
pub open spec fn plain(s: Seq<char>) -> Seq<char> {
    Seq::new(
        s.len(),
        |i: int|
            if path_syntax(s[i]) {
                '_'
            } else {
                s[i]
            },
    )
}

/// `s` without the dots and blanks at its end.
pub open spec fn without_end(s: Seq<char>) -> Seq<char>
    decreases s.len(),
{
    if s.len() > 0 && (s.last() == '.' || s.last() == ' ') {
        without_end(s.drop_last())
    } else {
        s
    }
}

/// The name under which a file is saved when a server calls it `s`.
pub open spec fn clean(s: Seq<char>) -> Seq<char> {
    let name = without_end(trimmed(plain(s)));
    if name.len() == 0 {
        "download"@
    } else {
        name
    }
}

/// Whether the character is one of path syntax.
fn is_path_syntax(c: char) -> (r: bool)
    ensures
        r == path_syntax(c),
{
    c.is_control() || c == '<' || c == '>' || c == ':' || c == '"' || c == '/' || c == '\\' || c == '|' || c == '?'
        || c == '*'
}

/// The name under which a file is saved when a server calls it `value`.
pub fn clean_filename(value: &str) -> (r: String)
    ensures
        r@ == clean(value@),
{
    let mut chars: Vec<char> = chars_of(value);
    let mut i: usize = 0;
    while i < chars.len()
        invariant
            i <= chars@.len(),
            chars@.len() == value@.len(),
            forall|j: int| 0 <= j < i ==> chars@[j] == plain(value@)[j],
            forall|j: int| i <= j < chars@.len() ==> chars@[j] == value@[j],
        decreases chars@.len() - i,
    {
        if is_path_syntax(chars[i]) {
            chars.set(i, '_');
        }
        i = i + 1;
    }
    assert(chars@ =~= plain(value@));
    let mut name: Vec<char> = chars_of(trim(text_of(&chars).as_str()).as_str());
    while name.len() > 0 && (name[name.len() - 1] == '.' || name[name.len() - 1] == ' ')
        invariant
            without_end(name@) == without_end(trimmed(plain(value@))),
        decreases name@.len(),
    {
        let ghost before = name@;
        name.pop();
        assert(name@ =~= before.drop_last());
    }
    if name.len() == 0 {
        "download".to_owned()
    } else {
        text_of(&name)
    }
}

/// The name of a new download, from the last component of the path that the web view suggests.
pub fn suggested_name(file_name: Option<String>) -> (r: String)
    ensures
        r@ == clean(
            match file_name {
                Some(name) => name@,
                None => "download"@,
            },
        ),
{
    match file_name {
        Some(name) => clean_filename(name.as_str()),
        None => clean_filename("download"),
    }
}

/// What is left without dots and blanks at the end is a prefix that ends in neither.
proof fn lemma_without_end(s: Seq<char>)
    ensures
        without_end(s).len() <= s.len(),
        without_end(s) == s.take(without_end(s).len() as int),
        without_end(s).len() > 0 ==> without_end(s).last() != '.' && without_end(s).last() != ' ',
    decreases s.len(),
{
    if s.len() > 0 && (s.last() == '.' || s.last() == ' ') {
        lemma_without_end(s.drop_last());
        assert(s.drop_last().take(without_end(s).len() as int) =~= s.take(without_end(s).len() as int));
    } else {
        assert(s.take(s.len() as int) =~= s);
    }
}

/// What is left without leading white space is a suffix.
proof fn lemma_start_is_suffix(s: Seq<char>)
    ensures
        trim_start(s).len() <= s.len(),
        trim_start(s) == s.skip(s.len() - trim_start(s).len()),
    decreases s.len(),
{
    if s.len() > 0 && white_space(s[0]) {
        lemma_start_is_suffix(s.skip(1));
        assert(s.skip(1).skip(s.len() - 1 - trim_start(s).len()) =~= s.skip(s.len() - trim_start(s).len()));
    } else {
        assert(s.skip(0) =~= s);
    }
}

/// A cleaned name is never empty, holds no path syntax, does not begin with white space and ends
/// neither in a dot nor in a blank. So it is neither `.` nor `..`.
pub proof fn cleaned_name_is_plain(s: Seq<char>)
    ensures
        clean(s).len() > 0,
        forall|i: int| 0 <= i < clean(s).len() ==> !path_syntax(#[trigger] clean(s)[i]),
        !white_space(clean(s)[0]),
        clean(s).last() != '.' && clean(s).last() != ' ',
{
    reveal_strlit("download");
    let p = plain(s);
    let t = trimmed(p);
    let name = without_end(t);
    lemma_start_is_suffix(p);
    lemma_trim_start(p);
    lemma_trim_end(trim_start(p));
    lemma_without_end(t);
    assert forall|i: int| 0 <= i < p.len() implies !path_syntax(#[trigger] p[i]) by {
        assert(!path_syntax('_'));
    }
    if name.len() > 0 {
        assert(name[0] == trim_start(p)[0]);
        assert forall|i: int| 0 <= i < name.len() implies !path_syntax(#[trigger] name[i]) by {
            assert(name[i] == t[i]);
            assert(t[i] == trim_start(p)[i]);
            assert(trim_start(p)[i] == p[p.len() - trim_start(p).len() + i]);
        }
    }
}

/// Cleaning a cleaned name changes nothing, unless the name ends in white space other than a
/// blank that dots had followed.
pub proof fn cleaning_is_idempotent(s: Seq<char>)
    requires
        !white_space(clean(s).last()),
    ensures
        clean(clean(s)) == clean(s),
{
    let c = clean(s);
    cleaned_name_is_plain(s);
    assert(plain(c) =~= c);
    assert(trim_start(c) == c);
    assert(trim_end(c) == c);
    assert(without_end(c) == c);
}

/// What a cleaned name makes of a character: an underscore of path syntax, and of any other character
/// that character.
pub open spec fn cleaned_char(c: char) -> char {
    if control(c) || "<>:\"/\\|?*"@.contains(c) {
        '_'
    } else {
        c
    }
}

/// Whether a character may be dropped from the end of a name.
pub open spec fn droppable(c: char) -> bool {
    white_space(c) || c == '.'
}

/// A cleaned name is the given one, character by character, with an underscore for each control
/// character and each of `< > : " / \ | ? *`, but for white space at its ends and dots at its end.
/// Only where nothing else is there, the name is `download`.
#[verifier::spinoff_prover]
#[verifier::rlimit(60)]
pub proof fn cleaning_keeps_the_characters(s: Seq<char>) -> (at: int)
    ensures
        0 <= at <= s.len(),
        forall|i: int| 0 <= i < at ==> white_space(cleaned_char(#[trigger] s[i])),
        clean(s) == "download"@ && (forall|i: int| at <= i < s.len() ==> droppable(cleaned_char(#[trigger] s[i]))) || {
            &&& at + clean(s).len() <= s.len()
            &&& forall|i: int| 0 <= i < clean(s).len() ==> #[trigger] clean(s)[i] == cleaned_char(s[at + i])
            &&& forall|i: int| at + clean(s).len() <= i < s.len() ==> droppable(cleaned_char(#[trigger] s[i]))
        },
{
    reveal_strlit("<>:\"/\\|?*");
    let signs = "<>:\"/\\|?*"@;
    assert(signs[0] == '<' && signs[1] == '>' && signs[2] == ':' && signs[3] == '"' && signs[4] == '/' && signs[5]
        == '\\' && signs[6] == '|' && signs[7] == '?' && signs[8] == '*' && signs.len() == 9);
    assert forall|c: char| path_syntax(c) <==> control(c) || #[trigger] signs.contains(c) by {
        if path_syntax(c) && !control(c) {
            assert(exists|k: int| 0 <= k < signs.len() && signs[k] == c);
        }
    }
    let p = plain(s);
    assert forall|i: int| 0 <= i < s.len() implies #[trigger] p[i] == cleaned_char(s[i]) by {
        assert(path_syntax(s[i]) <==> control(s[i]) || signs.contains(s[i]));
    }
    let start = trim_start(p);
    lemma_start_is_suffix(p);
    lemma_start_is_blank(p);
    let at = s.len() - start.len();
    let t = trimmed(p);
    lemma_trim_end(start);
    lemma_end_is_blank(start);
    let name = without_end(t);
    lemma_without_end(t);
    lemma_dropped_end(t);
    assert forall|i: int| 0 <= i < at implies white_space(cleaned_char(#[trigger] s[i])) by {
        assert(white_space(p[i]));
    }
    assert forall|i: int| at + name.len() <= i < s.len() implies droppable(cleaned_char(#[trigger] s[i])) by {
        assert(p[i] == start[i - at]);
        if i - at >= t.len() {
            assert(white_space(start[i - at]));
        } else {
            assert(t[i - at] == start[i - at]);
        }
    }
    if name.len() > 0 {
        assert forall|i: int| 0 <= i < name.len() implies #[trigger] name[i] == cleaned_char(s[at + i]) by {
            assert(name[i] == t[i] && t[i] == start[i] && start[i] == p[at + i]);
        }
    }
    at
}

/// What comes off the start is white space.
proof fn lemma_start_is_blank(s: Seq<char>)
    ensures
        trim_start(s).len() <= s.len(),
        forall|i: int| 0 <= i < s.len() - trim_start(s).len() ==> white_space(#[trigger] s[i]),
    decreases s.len(),
{
    if s.len() > 0 && white_space(s[0]) {
        lemma_start_is_blank(s.skip(1));
        assert forall|i: int| 0 <= i < s.len() - trim_start(s).len() implies white_space(#[trigger] s[i]) by {
            if i > 0 {
                assert(s.skip(1)[i - 1] == s[i]);
            }
        }
    }
}

/// What comes off the end is white space.
proof fn lemma_end_is_blank(s: Seq<char>)
    ensures
        trim_end(s).len() <= s.len(),
        forall|i: int| trim_end(s).len() <= i < s.len() ==> white_space(#[trigger] s[i]),
    decreases s.len(),
{
    if s.len() > 0 && white_space(s.last()) {
        lemma_end_is_blank(s.drop_last());
        assert forall|i: int| trim_end(s).len() <= i < s.len() implies white_space(#[trigger] s[i]) by {
            if i < s.len() - 1 {
                assert(s.drop_last()[i] == s[i]);
            }
        }
    }
}

/// What is dropped from the end is dots and blanks.
proof fn lemma_dropped_end(s: Seq<char>)
    ensures
        without_end(s).len() <= s.len(),
        forall|i: int| without_end(s).len() <= i < s.len() ==> #[trigger] s[i] == '.' || s[i] == ' ',
    decreases s.len(),
{
    if s.len() > 0 && (s.last() == '.' || s.last() == ' ') {
        lemma_dropped_end(s.drop_last());
        assert forall|i: int| without_end(s).len() <= i < s.len() implies #[trigger] s[i] == '.' || s[i] == ' ' by {
            if i < s.len() - 1 {
                assert(s.drop_last()[i] == s[i]);
            }
        }
    }
}

/// A name that is fit for a file as it is stays as it is.
pub proof fn plain_name_stays(s: Seq<char>)
    requires
        s.len() > 0,
        forall|i: int| 0 <= i < s.len() ==> !control(#[trigger] s[i]) && !"<>:\"/\\|?*"@.contains(s[i]),
        !white_space(s[0]) && !white_space(s.last()),
        s.last() != '.',
    ensures
        clean(s) == s,
{
    reveal_strlit("<>:\"/\\|?*");
    let at = cleaning_keeps_the_characters(s);
    assert(cleaned_char(s[0]) == s[0]);
    assert(at == 0);
    assert(cleaned_char(s[s.len() - 1]) == s.last());
    assert(!droppable(s.last()));
    assert(clean(s) =~= s);
}

} // verus!
