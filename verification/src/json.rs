//! JSON objects of numbers and texts: how they are written, and how they are read.

use crate::text::{decimal, digit, opt_text};
use vstd::prelude::*;

verus! {

/// A value in an object.
#[verifier::ext_equal]
pub enum JsonValue {
    Number(nat),
    Text(Seq<char>),
    Null,
}

/// A key of an object and its value.
#[verifier::ext_equal]
pub struct JsonMember {
    pub key: Seq<char>,
    pub value: JsonValue,
}

/// The hexadecimal digit of a number below sixteen, in lower case.
pub open spec fn hex_digit(d: nat) -> char {
    if d < 10 {
        digit(d)
    } else {
        ('a' as u32 + (d - 10)) as char
    }
}

/// A character as it stands in a JSON string.
pub open spec fn escaped_char(c: char) -> Seq<char> {
    let code = c as u32 as nat;
    if c == '"' || c == '\\' {
        seq!['\\', c]
    } else if code == 8 {
        seq!['\\', 'b']
    } else if c == '\t' {
        seq!['\\', 't']
    } else if c == '\n' {
        seq!['\\', 'n']
    } else if code == 12 {
        seq!['\\', 'f']
    } else if c == '\r' {
        seq!['\\', 'r']
    } else if code < 32 {
        seq!['\\', 'u', '0', '0', hex_digit(code / 16), hex_digit(code % 16)]
    } else {
        seq![c]
    }
}

/// The characters of a text as they stand in a JSON string.
pub open spec fn escaped(s: Seq<char>) -> Seq<char>
    decreases s.len(),
{
    if s.len() == 0 {
        Seq::empty()
    } else {
        escaped_char(s[0]) + escaped(s.skip(1))
    }
}

/// A text as a JSON string.
pub open spec fn string_text(s: Seq<char>) -> Seq<char> {
    seq!['"'] + escaped(s) + seq!['"']
}

/// A value as it is written.
pub open spec fn value_text(value: JsonValue) -> Seq<char> {
    match value {
        JsonValue::Number(n) => decimal(n),
        JsonValue::Text(s) => string_text(s),
        JsonValue::Null => seq!['n', 'u', 'l', 'l'],
    }
}

/// The line of a member.
pub open spec fn member_text(member: JsonMember) -> Seq<char> {
    seq![' ', ' '] + string_text(member.key) + seq![':', ' '] + value_text(member.value)
}

/// The lines of members, with commas between them.
pub open spec fn members_text(members: Seq<JsonMember>) -> Seq<char>
    decreases members.len(),
{
    if members.len() == 0 {
        Seq::empty()
    } else if members.len() == 1 {
        member_text(members[0])
    } else {
        member_text(members[0]) + seq![',', '\n'] + members_text(members.skip(1))
    }
}

/// An object as it is written, one line for each of its members.
pub open spec fn object_text(members: Seq<JsonMember>) -> Seq<char> {
    seq!['{', '\n'] + members_text(members) + seq!['\n', '}']
}

/// The value of a text that may be absent.
pub open spec fn optional_value(text: Option<Seq<char>>) -> JsonValue {
    match text {
        Some(present) => JsonValue::Text(present),
        None => JsonValue::Null,
    }
}

/// The members that hold the numbers.
pub open spec fn number_members(numbers: Seq<(String, u64)>) -> Seq<JsonMember> {
    numbers.map_values(|n: (String, u64)| JsonMember { key: n.0@, value: JsonValue::Number(n.1 as nat) })
}

/// The members that hold the texts.
pub open spec fn text_members(texts: Seq<(String, Option<String>)>) -> Seq<JsonMember> {
    texts.map_values(
        |t: (String, Option<String>)| JsonMember { key: t.0@, value: optional_value(opt_text(t.1)) },
    )
}

/// Whether no key occurs twice.
pub open spec fn keys_differ(members: Seq<JsonMember>) -> bool {
    forall|i: int, j: int| 0 <= i < j < members.len() ==> #[trigger] members[i].key != #[trigger] members[j].key
}

/// Collects the members into a `serde_json::Map`, which keeps their order, and writes it with the
/// alternate `Display` of `serde_json::Value`, its pretty printer: each member on a line of its
/// own, indented by two spaces; numbers in decimal, an absent text as `null`; in strings the
/// quotation mark, the backslash and the characters below U+0020 escaped and no others. A key
/// that occurred twice would be written once, so the keys differ.
#[verifier::external_body]
pub(crate) fn write_object(numbers: &Vec<(String, u64)>, texts: &Vec<(String, Option<String>)>) -> (r: String)
    requires
        numbers@.len() > 0,
        keys_differ(number_members(numbers@) + text_members(texts@)),
    ensures
        r@ == object_text(number_members(numbers@) + text_members(texts@)),
{
    let numbers = numbers.iter().map(|(key, number)| (key.clone(), serde_json::Value::from(*number)));
    let texts = texts.iter().map(|(key, text)| (key.clone(), serde_json::Value::from(text.clone())));
    format!("{:#}", serde_json::Value::Object(numbers.chain(texts).collect()))
}

/// What follows the white space at the start of a text.
pub open spec fn skip_blank(s: Seq<char>) -> Seq<char>
    decreases s.len(),
{
    if s.len() > 0 && (s[0] == ' ' || s[0] == '\n' || s[0] == '\r' || s[0] == '\t') {
        skip_blank(s.skip(1))
    } else {
        s
    }
}

/// The number that a hexadecimal digit stands for.
pub open spec fn hex_value(c: char) -> Option<nat> {
    if '0' <= c <= '9' {
        Some((c as u32 - '0' as u32) as nat)
    } else if 'a' <= c <= 'f' {
        Some((c as u32 - 'a' as u32 + 10) as nat)
    } else if 'A' <= c <= 'F' {
        Some((c as u32 - 'A' as u32 + 10) as nat)
    } else {
        None
    }
}

/// The character whose code four hexadecimal digits give. Half of a surrogate pair is none.
pub open spec fn coded_char(a: char, b: char, c: char, d: char) -> Option<char> {
    match (hex_value(a), hex_value(b), hex_value(c), hex_value(d)) {
        (Some(a), Some(b), Some(c), Some(d)) => {
            let code = 4096 * a + 256 * b + 16 * c + d;
            if 0xd800 <= code <= 0xdfff {
                None
            } else {
                Some(code as char)
            }
        },
        _ => None,
    }
}

/// The character that stands in a string as a backslash and the given one.
pub open spec fn unescaped_char(c: char) -> Option<char> {
    if c == '"' || c == '\\' || c == '/' {
        Some(c)
    } else if c == 'b' {
        Some(8u32 as char)
    } else if c == 'f' {
        Some(12u32 as char)
    } else if c == 'n' {
        Some('\n')
    } else if c == 'r' {
        Some('\r')
    } else if c == 't' {
        Some('\t')
    } else {
        None
    }
}

/// A character in front of what was read.
pub open spec fn with_char(c: Option<char>, read: Option<(Seq<char>, Seq<char>)>) -> Option<(Seq<char>, Seq<char>)> {
    match (c, read) {
        (Some(c), Some((text, rest))) => Some((seq![c] + text, rest)),
        _ => None,
    }
}

/// The text of the string at the start, without its opening quotation mark, and what follows its
/// closing one.
pub open spec fn read_string(s: Seq<char>) -> Option<(Seq<char>, Seq<char>)>
    decreases s.len(),
{
    if s.len() == 0 || (s[0] as u32) < 32 {
        None
    } else if s[0] == '"' {
        Some((Seq::empty(), s.skip(1)))
    } else if s[0] != '\\' {
        with_char(Some(s[0]), read_string(s.skip(1)))
    } else if s.len() >= 6 && s[1] == 'u' {
        with_char(coded_char(s[2], s[3], s[4], s[5]), read_string(s.skip(6)))
    } else if s.len() >= 2 {
        with_char(unescaped_char(s[1]), read_string(s.skip(2)))
    } else {
        None
    }
}

/// The number whose first digits are those of `n` and whose others stand at the start, and what
/// follows them.
pub open spec fn read_digits(s: Seq<char>, n: nat) -> (nat, Seq<char>)
    decreases s.len(),
{
    if s.len() > 0 && '0' <= s[0] <= '9' {
        read_digits(s.skip(1), (10 * n + (s[0] as u32 - '0' as u32)) as nat)
    } else {
        (n, s)
    }
}

/// The value at the start, and what follows it.
pub open spec fn read_value(s: Seq<char>) -> Option<(JsonValue, Seq<char>)> {
    if s.len() == 0 {
        None
    } else if s[0] == '"' {
        match read_string(s.skip(1)) {
            Some((text, rest)) => Some((JsonValue::Text(text), rest)),
            None => None,
        }
    } else if '0' <= s[0] <= '9' {
        let (n, rest) = read_digits(s, 0);
        Some((JsonValue::Number(n), rest))
    } else if s.len() >= 4 && s.take(4) == seq!['n', 'u', 'l', 'l'] {
        Some((JsonValue::Null, s.skip(4)))
    } else {
        None
    }
}

/// The member at the start, and what follows it and white space.
pub open spec fn read_member(s: Seq<char>) -> Option<(JsonMember, Seq<char>)> {
    let opened = skip_blank(s);
    if opened.len() == 0 || opened[0] != '"' {
        None
    } else {
        match read_string(opened.skip(1)) {
            Some((key, after_key)) => {
                let colon = skip_blank(after_key);
                if colon.len() == 0 || colon[0] != ':' {
                    None
                } else {
                    match read_value(skip_blank(colon.skip(1))) {
                        Some((value, rest)) => Some((JsonMember { key, value }, skip_blank(rest))),
                        None => None,
                    }
                }
            },
            None => None,
        }
    }
}

/// The members of the object at the start, without its opening brace, and what follows its closing
/// one.
pub open spec fn read_members(s: Seq<char>) -> Option<(Seq<JsonMember>, Seq<char>)>
    decreases s.len(),
{
    match read_member(s) {
        Some((member, rest)) => if 0 < rest.len() && rest[0] == '}' {
            Some((seq![member], rest.skip(1)))
        } else if 0 < rest.len() <= s.len() && rest[0] == ',' {
            match read_members(rest.skip(1)) {
                Some((members, after)) => Some((seq![member] + members, after)),
                None => None,
            }
        } else {
            None
        },
        None => None,
    }
}

/// The objects of the array at the start, without its opening bracket and from its first object
/// on, and what follows its closing bracket.
pub open spec fn read_objects(s: Seq<char>) -> Option<(Seq<Seq<JsonMember>>, Seq<char>)>
    decreases s.len(),
{
    let opened = skip_blank(s);
    if opened.len() == 0 || opened[0] != '{' {
        None
    } else {
        match read_members(opened.skip(1)) {
            Some((members, after)) => {
                let rest = skip_blank(after);
                if 0 < rest.len() && rest[0] == ']' {
                    Some((seq![members], rest.skip(1)))
                } else if 0 < rest.len() <= s.len() && rest[0] == ',' {
                    match read_objects(rest.skip(1)) {
                        Some((objects, end)) => Some((seq![members] + objects, end)),
                        None => None,
                    }
                } else {
                    None
                }
            },
            None => None,
        }
    }
}

/// The objects of a text that is one array of objects with members, and nothing else.
pub open spec fn read_array(s: Seq<char>) -> Option<Seq<Seq<JsonMember>>> {
    let opened = skip_blank(s);
    if opened.len() == 0 || opened[0] != '[' {
        None
    } else {
        let inside = skip_blank(opened.skip(1));
        if inside.len() > 0 && inside[0] == ']' {
            if skip_blank(inside.skip(1)).len() == 0 {
                Some(Seq::empty())
            } else {
                None
            }
        } else {
            match read_objects(inside) {
                Some((objects, rest)) => if skip_blank(rest).len() == 0 {
                    Some(objects)
                } else {
                    None
                },
                None => None,
            }
        }
    }
}

/// A character is the one with its code.
proof fn lemma_char(c: char)
    ensures
        c as u32 as nat as char == c,
{
}

/// A string reads back as its text.
proof fn lemma_read_string(text: Seq<char>, rest: Seq<char>)
    ensures
        read_string(escaped(text) + seq!['"'] + rest) == Some((text, rest)),
    decreases text.len(),
{
    let s = escaped(text) + seq!['"'] + rest;
    if text.len() == 0 {
        assert(s.skip(1) =~= rest);
        assert(text =~= Seq::empty());
    } else {
        let c = text[0];
        let code = c as u32 as nat;
        let tail = escaped(text.skip(1)) + seq!['"'] + rest;
        let head = escaped_char(c);
        lemma_read_string(text.skip(1), rest);
        lemma_char(c);
        assert(s =~= head + tail);
        assert(s.skip(head.len() as int) =~= tail);
        assert(seq![c] + text.skip(1) =~= text);
        if code < 32 && head.len() == 6 {
            assert(s[1] == 'u' && s[2] == '0' && s[3] == '0');
            assert(hex_value(s[4]) == Some(code / 16));
            assert(hex_value(s[5]) == Some(code % 16));
            assert(hex_value('0') == Some(0nat));
            assert(16 * (code / 16) + code % 16 == code);
        } else if head.len() == 2 {
            assert(s[0] == '\\' && s[1] == head[1]);
            assert(unescaped_char(s[1]) == Some(c));
        } else {
            assert(s[0] == c);
        }
    }
}

/// The digits of a number are read as that number.
proof fn lemma_read_digits(n: nat, rest: Seq<char>)
    ensures
        read_digits(decimal(n) + rest, 0) == read_digits(rest, n),
        '0' <= decimal(n)[0] <= '9',
        decimal(n).len() > 0,
    decreases n,
{
    let last = digit(n % 10);
    let s = seq![last] + rest;
    assert(s.skip(1) =~= rest);
    assert(s[0] == last);
    if n < 10 {
        assert(decimal(n) + rest =~= s);
        assert(read_digits(s, 0) == read_digits(rest, n));
    } else {
        lemma_read_digits(n / 10, s);
        assert(decimal(n) + rest =~= decimal(n / 10) + s);
        assert(decimal(n)[0] == decimal(n / 10)[0]);
        assert(10 * (n / 10) + n % 10 == n);
        assert(read_digits(s, n / 10) == read_digits(rest, n));
    }
}

/// A value reads back where no digit follows it.
proof fn lemma_read_value(value: JsonValue, rest: Seq<char>)
    requires
        rest.len() > 0 ==> !('0' <= rest[0] <= '9'),
    ensures
        read_value(value_text(value) + rest) == Some((value, rest)),
        skip_blank(value_text(value) + rest) == value_text(value) + rest,
{
    let s = value_text(value) + rest;
    match value {
        JsonValue::Number(n) => {
            lemma_read_digits(n, rest);
            assert(s[0] == decimal(n)[0]);
        },
        JsonValue::Text(text) => {
            lemma_read_string(text, rest);
            assert(s.skip(1) =~= escaped(text) + seq!['"'] + rest);
        },
        JsonValue::Null => {
            assert(s.take(4) =~= seq!['n', 'u', 'l', 'l']);
            assert(s.skip(4) =~= rest);
        },
    }
}

/// The line of a member reads back as the member.
proof fn lemma_read_member(member: JsonMember, rest: Seq<char>)
    requires
        rest.len() > 0 ==> !('0' <= rest[0] <= '9'),
    ensures
        read_member(seq!['\n'] + member_text(member) + rest) == Some((member, skip_blank(rest))),
{
    let s = seq!['\n'] + member_text(member) + rest;
    let written = value_text(member.value) + rest;
    let after_key = seq![':', ' '] + written;
    let opened = string_text(member.key) + after_key;
    assert(s.skip(1).skip(1).skip(1) =~= opened);
    assert(skip_blank(s) == opened) by {
        reveal_with_fuel(skip_blank, 4);
    }
    assert(opened.skip(1) =~= escaped(member.key) + seq!['"'] + after_key);
    lemma_read_string(member.key, after_key);
    assert(skip_blank(after_key) == after_key);
    assert(after_key.skip(1).skip(1) =~= written);
    lemma_read_value(member.value, rest);
    assert(skip_blank(after_key.skip(1)) == written) by {
        reveal_with_fuel(skip_blank, 2);
    }
}

/// The lines of members read back as the members.
proof fn lemma_read_members(members: Seq<JsonMember>, rest: Seq<char>)
    requires
        members.len() > 0,
    ensures
        read_members(seq!['\n'] + members_text(members) + seq!['\n', '}'] + rest) == Some((members, rest)),
    decreases members.len(),
{
    let s = seq!['\n'] + members_text(members) + seq!['\n', '}'] + rest;
    let first = members[0];
    if members.len() == 1 {
        let after = seq!['\n', '}'] + rest;
        lemma_read_member(first, after);
        assert(s =~= seq!['\n'] + member_text(first) + after);
        assert(after.skip(1) =~= seq!['}'] + rest);
        assert(skip_blank(after) == after.skip(1)) by {
            reveal_with_fuel(skip_blank, 2);
        }
        assert(after.skip(1).skip(1) =~= rest);
        assert(seq![first] =~= members);
    } else {
        let tail = seq!['\n'] + members_text(members.skip(1)) + seq!['\n', '}'] + rest;
        let after = seq![','] + tail;
        lemma_read_member(first, after);
        assert(s =~= seq!['\n'] + member_text(first) + after);
        assert(skip_blank(after) == after);
        assert(after.skip(1) =~= tail);
        lemma_read_members(members.skip(1), rest);
        assert(seq![first] + members.skip(1) =~= members);
    }
}

/// A written object reads back as its members, whatever their texts hold.
pub proof fn written_object_reads_back(members: Seq<JsonMember>, rest: Seq<char>)
    requires
        members.len() > 0,
    ensures
        (object_text(members) + rest)[0] == '{',
        read_members((object_text(members) + rest).skip(1)) == Some((members, rest)),
{
    lemma_read_members(members, rest);
    assert((object_text(members) + rest).skip(1) =~= seq!['\n'] + members_text(members) + seq!['\n', '}'] + rest);
}

} // verus!
