//! Searching the ledger: `LIKE` patterns that match a text literally.

use crate::text::chars_of;
use vstd::prelude::*;

verus! {

/// What stands for one character in a pattern whose escape character is the backslash.
pub open spec fn escaped_char(c: char) -> Seq<char> {
    if c == '\\' || c == '%' || c == '_' {
        seq!['\\', c]
    } else {
        seq![c]
    }
}

/// What stands for a text in a pattern whose escape character is the backslash.
pub open spec fn escaped(s: Seq<char>) -> Seq<char>
    decreases s.len(),
{
    if s.len() == 0 {
        Seq::empty()
    } else {
        escaped_char(s[0]) + escaped(s.skip(1))
    }
}

/// The part of a `LIKE` pattern that matches the text literally.
pub fn escape_like_pattern(value: &str) -> (r: String)
    ensures
        r@ == escaped(value@),
{
    let chars: Vec<char> = chars_of(value);
    let mut r: String = String::new();
    let mut i: usize = 0;
    assert(value@.skip(0) == value@);
    assert(r@ + escaped(value@.skip(0)) == escaped(value@));
    while i < chars.len()
        invariant
            i <= chars@.len(),
            chars@ == value@,
            r@ + escaped(value@.skip(i as int)) == escaped(value@),
        decreases chars@.len() - i,
    {
        let c: char = chars[i];
        let ghost before = r@;
        let ghost rest = value@.skip(i as int);
        if c == '\\' || c == '%' || c == '_' {
            r.push('\\');
        }
        r.push(c);
        proof {
            assert(rest[0] == c);
            assert(rest.skip(1) == value@.skip(i + 1));
            assert(r@ == before + escaped_char(c));
            assert(before + (escaped_char(c) + escaped(rest.skip(1))) == r@ + escaped(value@.skip(i + 1)));
        }
        i = i + 1;
    }
    assert(value@.skip(i as int).len() == 0);
    assert(r@ + Seq::<char>::empty() == r@);
    r
}

/// A character without regard to the case of the letters A to Z.
pub open spec fn folded(c: char) -> char {
    if 'A' <= c && c <= 'Z' {
        (c as u32 + 32) as char
    } else {
        c
    }
}

/// Whether `text` matches `pattern` as SQL's `LIKE` has it, with the backslash as the escape
/// character and without regard to the case of the letters A to Z.
pub open spec fn like(pattern: Seq<char>, text: Seq<char>) -> bool
    decreases pattern.len(), text.len(),
{
    if pattern.len() == 0 {
        text.len() == 0
    } else if pattern[0] == '%' {
        like(pattern.skip(1), text) || (text.len() > 0 && like(pattern, text.skip(1)))
    } else if text.len() == 0 {
        false
    } else if pattern[0] == '_' {
        like(pattern.skip(1), text.skip(1))
    } else if pattern[0] == '\\' {
        pattern.len() >= 2 && folded(pattern[1]) == folded(text[0]) && like(pattern.skip(2), text.skip(1))
    } else {
        folded(pattern[0]) == folded(text[0]) && like(pattern.skip(1), text.skip(1))
    }
}

/// Whether `part` stands in `text` from position `at` on, letter case aside.
pub open spec fn stands_at(part: Seq<char>, text: Seq<char>, at: int) -> bool {
    &&& 0 <= at
    &&& at + part.len() <= text.len()
    &&& forall|i: int| 0 <= i < part.len() ==> folded(#[trigger] part[i]) == folded(text[at + i])
}

/// The pattern that the ledger is searched with: anything, the escaped text, anything.
pub open spec fn containing(escaped_text: Seq<char>) -> Seq<char> {
    seq!['%'] + escaped_text + seq!['%']
}

proof fn lemma_trailing_any(text: Seq<char>)
    ensures
        like(seq!['%'], text),
    decreases text.len(),
{
    let p = seq!['%'];
    if text.len() > 0 {
        lemma_trailing_any(text.skip(1));
    } else {
        assert(like(p.skip(1), text));
    }
}

proof fn lemma_escaped_then_any(part: Seq<char>, text: Seq<char>)
    ensures
        like(escaped(part) + seq!['%'], text) <==> stands_at(part, text, 0),
    decreases part.len(),
{
    let p = escaped(part) + seq!['%'];
    if part.len() == 0 {
        assert(p == seq!['%']);
        lemma_trailing_any(text);
    } else {
        let c = part[0];
        let tail = escaped(part.skip(1)) + seq!['%'];
        if c == '\\' || c == '%' || c == '_' {
            assert(p == seq!['\\', c] + tail);
            assert(p[0] == '\\');
            assert(p[1] == c);
            assert(p.skip(2) == tail);
        } else {
            assert(p == seq![c] + tail);
            assert(p[0] == c);
            assert(p.skip(1) == tail);
        }
        if text.len() > 0 {
            lemma_escaped_then_any(part.skip(1), text.skip(1));
            let rest = part.skip(1);
            let after = text.skip(1);
            if stands_at(part, text, 0) {
                assert forall|i: int| 0 <= i < rest.len() implies folded(#[trigger] rest[i]) == folded(after[0 + i]) by {
                    assert(folded(part[i + 1]) == folded(text[0 + (i + 1)]));
                }
                assert(stands_at(rest, after, 0));
                assert(folded(part[0]) == folded(text[0]));
            }
            if stands_at(rest, after, 0) && folded(c) == folded(text[0]) {
                assert forall|i: int| 0 <= i < part.len() implies folded(#[trigger] part[i]) == folded(text[0 + i]) by {
                    if i > 0 {
                        assert(folded(rest[i - 1]) == folded(after[0 + (i - 1)]));
                    }
                }
            }
        }
    }
}

proof fn lemma_any_then(pattern: Seq<char>, text: Seq<char>)
    ensures
        like(seq!['%'] + pattern, text) <==> exists|i: int|
            0 <= i <= text.len() && #[trigger] like(pattern, text.skip(i)),
    decreases text.len(),
{
    let p = seq!['%'] + pattern;
    assert(p.skip(1) == pattern);
    assert(text.skip(0) == text);
    assert(like(pattern, text.skip(0)) == like(pattern, text));
    if text.len() > 0 {
        lemma_any_then(pattern, text.skip(1));
        if like(p, text.skip(1)) {
            let i = choose|i: int| 0 <= i <= text.skip(1).len() && #[trigger] like(pattern, text.skip(1).skip(i));
            assert(text.skip(1).skip(i) == text.skip(i + 1));
            assert(like(pattern, text.skip(i + 1)));
        }
        if exists|i: int| 0 <= i <= text.len() && #[trigger] like(pattern, text.skip(i)) {
            let i = choose|i: int| 0 <= i <= text.len() && #[trigger] like(pattern, text.skip(i));
            if i > 0 {
                assert(text.skip(1).skip(i - 1) == text.skip(i));
                assert(like(pattern, text.skip(1).skip(i - 1)));
            }
        }
    }
}

/// A search finds exactly the texts that hold the searched text, letter by letter but for the
/// case of A to Z: a percent sign, an underscore or a backslash in it stands for itself alone.
pub proof fn search_is_literal(part: Seq<char>, text: Seq<char>)
    ensures
        like(containing(escaped(part)), text) <==> exists|at: int| stands_at(part, text, at),
{
    let inner = escaped(part) + seq!['%'];
    assert(containing(escaped(part)) == seq!['%'] + inner);
    lemma_any_then(inner, text);
    if exists|i: int| 0 <= i <= text.len() && #[trigger] like(inner, text.skip(i)) {
        let i = choose|i: int| 0 <= i <= text.len() && #[trigger] like(inner, text.skip(i));
        lemma_escaped_then_any(part, text.skip(i));
        assert forall|j: int| 0 <= j < part.len() implies folded(#[trigger] part[j]) == folded(text[i + j]) by {
            assert(text.skip(i)[0 + j] == text[i + j]);
        }
        assert(stands_at(part, text, i));
    }
    if exists|at: int| stands_at(part, text, at) {
        let at = choose|at: int| stands_at(part, text, at);
        assert forall|j: int| 0 <= j < part.len() implies folded(#[trigger] part[j]) == folded(text.skip(at)[0 + j]) by {
            assert(text.skip(at)[0 + j] == text[at + j]);
        }
        lemma_escaped_then_any(part, text.skip(at));
        assert(like(inner, text.skip(at)));
    }
}

} // verus!
