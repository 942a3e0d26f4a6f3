//! Profiles and their identifiers.

use crate::text::{chars_of, trim, trimmed};
use vstd::prelude::*;

verus! {

/// The digits of hexadecimal numbers, in either case.
pub open spec fn hex_digit(c: char) -> bool {
    ('0' <= c && c <= '9') || ('a' <= c && c <= 'f') || ('A' <= c && c <= 'F')
}

/// The places of the hyphens in a UUID of the form 8-4-4-4-12.
pub open spec fn hyphen_place(i: int) -> bool {
    i == 8 || i == 13 || i == 18 || i == 23
}

/// Whether a text is a hyphenated UUID: hexadecimal digits in groups of 8-4-4-4-12.
pub open spec fn is_profile_id(s: Seq<char>) -> bool {
    &&& s.len() == 36
    &&& forall|i: int| 0 <= i < 36 ==> if hyphen_place(i) {
        #[trigger] s[i] == '-'
    } else {
        hex_digit(s[i])
    }
}

/// The digits of hexadecimal numbers in lower case.
pub open spec fn lower_hex_digit(c: char) -> bool {
    ('0' <= c && c <= '9') || ('a' <= c && c <= 'f')
}

/// Whether a text is a random UUID in lower case: its version is 4 and its variant that of
/// RFC 9562.
pub open spec fn is_random_uuid(s: Seq<char>) -> bool {
    &&& s.len() == 36
    &&& forall|i: int| 0 <= i < 36 ==> if hyphen_place(i) {
        #[trigger] s[i] == '-'
    } else {
        lower_hex_digit(s[i])
    }
    &&& s[14] == '4'
    &&& s[19] == '8' || s[19] == '9' || s[19] == 'a' || s[19] == 'b'
}

/// Calls `uuid::Uuid::new_v4` and writes the UUID with `to_string`: 36 characters, hyphens after
/// the 8th, 12th, 16th and 20th digit, digits in lower case, version 4. Which UUID it is depends
/// on chance, so nothing ties two results to each other.
#[verifier::external_body]
fn random_uuid_text() -> (r: String)
    ensures
        is_random_uuid(r@),
{
    uuid::Uuid::new_v4().to_string()
}

/// A validated, UUID-shaped profile identifier.
#[derive(Debug, PartialEq, Eq, Hash)]
pub struct ProfileId {
    text: String,
}

impl View for ProfileId {
    type V = Seq<char>;

    closed spec fn view(&self) -> Seq<char> {
        self.text@
    }
}

/// Whether the character may occur in an identifier.
fn is_id_char(c: char) -> (r: bool)
    ensures
        r == (hex_digit(c) || c == '-'),
{
    ('0' <= c && c <= '9') || ('a' <= c && c <= 'f') || ('A' <= c && c <= 'F') || c == '-'
}

/// Why a text is no identifier.
pub open spec fn id_refusal(raw: Seq<char>) -> Seq<char> {
    if vstd::utf8::encode_utf8(raw).len() != 36 {
        "Profile id must be a UUID."@
    } else if exists|i: int| 0 <= i < raw.len() && !hex_digit(#[trigger] raw[i]) && raw[i] != '-' {
        "Profile id contains invalid characters."@
    } else {
        "Profile id is not a well-formed UUID."@
    }
}

impl ProfileId {
    #[verifier::type_invariant]
    spec fn well_formed(self) -> bool {
        is_profile_id(self.text@)
    }

    /// A new identifier, drawn at random.
    pub fn new() -> (r: ProfileId)
        ensures
            is_random_uuid(r@),
            is_profile_id(r@),
    {
        let text: String = random_uuid_text();
        assert forall|i: int| 0 <= i < 36 implies if hyphen_place(i) {
            #[trigger] text@[i] == '-'
        } else {
            hex_digit(text@[i])
        } by {
            let c = text@[i];
        }
        ProfileId { text }
    }

    /// Parses a strict hyphenated UUID (8-4-4-4-12) and rejects anything else.
    pub fn parse(raw: &str) -> (r: Result<ProfileId, String>)
        ensures
            match r {
                Ok(id) => is_profile_id(raw@) && id@ == raw@,
                Err(message) => !is_profile_id(raw@) && message@ == id_refusal(raw@),
            },
    {
        broadcast use vstd::string::group_string_axioms;

        let chars: Vec<char> = chars_of(raw);
        proof {
            if is_profile_id(raw@) {
                assert forall|i: int| 0 <= i < raw@.len() implies (#[trigger] raw@[i] as u32) < 128 by {}
                vstd::utf8::is_ascii_chars_encode_utf8(raw@);
            }
        }
        if raw.as_bytes().len() != 36 {
            return Err("Profile id must be a UUID.".to_owned());
        }
        let mut i: usize = 0;
        while i < chars.len()
            invariant
                i <= chars@.len(),
                chars@ == raw@,
                vstd::utf8::encode_utf8(raw@).len() == 36,
                forall|j: int| 0 <= j < i ==> hex_digit(#[trigger] raw@[j]) || raw@[j] == '-',
            decreases chars@.len() - i,
        {
            if !is_id_char(chars[i]) {
                assert(!hex_digit(raw@[i as int]) && raw@[i as int] != '-');
                return Err("Profile id contains invalid characters.".to_owned());
            }
            i = i + 1;
        }
        proof {
            assert forall|j: int| 0 <= j < raw@.len() implies (#[trigger] raw@[j] as u32) < 128 by {}
            vstd::utf8::is_ascii_chars_encode_utf8(raw@);
        }
        let mut k: usize = 0;
        while k < 36
            invariant
                k <= 36,
                chars@ == raw@,
                chars@.len() == 36,
                vstd::utf8::encode_utf8(raw@).len() == 36,
                forall|j: int| 0 <= j < 36 ==> hex_digit(#[trigger] raw@[j]) || raw@[j] == '-',
                forall|j: int| 0 <= j < k ==> (hyphen_place(j) <==> #[trigger] raw@[j] == '-'),
            decreases 36 - k,
        {
            let at_hyphen: bool = k == 8 || k == 13 || k == 18 || k == 23;
            if at_hyphen != (chars[k] == '-') {
                return Err("Profile id is not a well-formed UUID.".to_owned());
            }
            k = k + 1;
        }
        Ok(ProfileId { text: raw.to_owned() })
    }

    pub fn as_str(&self) -> (r: &str)
        ensures
            r@ == self@,
            is_profile_id(self@),
    {
        proof {
            use_type_invariant(self);
        }
        self.text.as_str()
    }
}

impl Clone for ProfileId {
    fn clone(&self) -> (r: ProfileId)
        ensures
            r@ == self@,
    {
        proof {
            use_type_invariant(self);
        }
        ProfileId { text: self.text.clone() }
    }
}

impl Default for ProfileId {
    fn default() -> (r: ProfileId)
        ensures
            is_random_uuid(r@),
    {
        ProfileId::new()
    }
}

/// No character of an identifier separates the names of a path, leads out of a directory or
/// names a drive.
pub proof fn identifiers_are_plain_names(id: Seq<char>)
    requires
        is_profile_id(id),
    ensures
        forall|i: int| 0 <= i < id.len() ==> {
            let c = #[trigger] id[i];
            c != '/' && c != '\\' && c != '.' && c != ':'
        },
{
}

/// A profile as recorded in the shared registry.
#[derive(Debug)]
pub struct ProfileRecord {
    pub id: ProfileId,
    pub name: String,
    pub color: String,
    pub created_at: u64,
    pub last_used_at: Option<u64>,
}

/// A recorded profile with its texts as sequences of characters.
#[verifier::ext_equal]
pub struct ProfileRecordView {
    pub id: Seq<char>,
    pub name: Seq<char>,
    pub color: Seq<char>,
    pub created_at: u64,
    pub last_used_at: Option<u64>,
}

impl View for ProfileRecord {
    type V = ProfileRecordView;

    open spec fn view(&self) -> ProfileRecordView {
        ProfileRecordView {
            id: self.id@,
            name: self.name@,
            color: self.color@,
            created_at: self.created_at,
            last_used_at: self.last_used_at,
        }
    }
}

impl Clone for ProfileRecord {
    fn clone(&self) -> (r: ProfileRecord)
        ensures
            r@ == self@,
    {
        ProfileRecord {
            id: self.id.clone(),
            name: self.name.clone(),
            color: self.color.clone(),
            created_at: self.created_at,
            last_used_at: self.last_used_at,
        }
    }
}

/// The views of recorded profiles.
pub open spec fn record_views(profiles: Seq<ProfileRecord>) -> Seq<ProfileRecordView> {
    Seq::new(profiles.len(), |i: int| profiles[i]@)
}

/// Copies of recorded profiles.
pub fn copy_records(profiles: &Vec<ProfileRecord>) -> (r: Vec<ProfileRecord>)
    ensures
        record_views(r@) == record_views(profiles@),
{
    let mut r: Vec<ProfileRecord> = Vec::new();
    let mut i: usize = 0;
    while i < profiles.len()
        invariant
            i <= profiles@.len(),
            r@.len() == i,
            forall|j: int| 0 <= j < i ==> (#[trigger] r@[j])@ == profiles@[j]@,
        decreases profiles@.len() - i,
    {
        r.push(profiles[i].clone());
        i = i + 1;
    }
    assert(record_views(r@) =~= record_views(profiles@));
    r
}

/// The color of the profile that is created when `index` others exist.
pub open spec fn palette(index: nat) -> Seq<char> {
    let place = index % 6;
    if place == 0 {
        "#8a3d2f"@
    } else if place == 1 {
        "#3f5d7a"@
    } else if place == 2 {
        "#3f6f52"@
    } else if place == 3 {
        "#8a6a2f"@
    } else if place == 4 {
        "#6a4d8a"@
    } else {
        "#a0523d"@
    }
}

/// The color of the profile that is created when `index` others exist.
fn palette_color(index: usize) -> (r: &'static str)
    ensures
        r@ == palette(index as nat),
{
    match index % 6 {
        0 => "#8a3d2f",
        1 => "#3f5d7a",
        2 => "#3f6f52",
        3 => "#8a6a2f",
        4 => "#6a4d8a",
        _ => "#a0523d",
    }
}

/// The record of a profile that is created at `now`, when `index` others exist.
pub open spec fn record_of(id: Seq<char>, name: Seq<char>, index: nat, now: u64) -> ProfileRecordView {
    ProfileRecordView {
        id,
        name: trimmed(name),
        color: palette(index),
        created_at: now,
        last_used_at: None,
    }
}

/// The record of a profile with the given identifier.
pub fn record_with_id(id: ProfileId, name: &str, index: usize, now: u64) -> (r: ProfileRecord)
    ensures
        r@ == record_of(id@, name@, index as nat, now),
{
    ProfileRecord {
        id,
        name: trim(name),
        color: palette_color(index).to_owned(),
        created_at: now,
        last_used_at: None,
    }
}

/// A small, frontend-friendly view of a profile including its live/running status.
#[derive(Debug)]
pub struct ProfileSummary {
    pub id: String,
    pub name: String,
    pub color: String,
    pub created_at: u64,
    pub last_used_at: Option<u64>,
    pub running: bool,
}

impl ProfileSummary {
    /// Whether the summary shows `record` and the given status.
    pub open spec fn shows(self, record: ProfileRecordView, running: bool) -> bool {
        &&& self.id@ == record.id
        &&& self.name@ == record.name
        &&& self.color@ == record.color
        &&& self.created_at == record.created_at
        &&& self.last_used_at == record.last_used_at
        &&& self.running == running
    }

    pub fn from(record: &ProfileRecord, running: bool) -> (r: ProfileSummary)
        ensures
            r.shows(record@, running),
    {
        ProfileSummary {
            id: record.id.as_str().to_owned(),
            name: record.name.clone(),
            color: record.color.clone(),
            created_at: record.created_at,
            last_used_at: record.last_used_at,
            running,
        }
    }
}

/// Whether a text is made of hexadecimal digits.
pub open spec fn hexadecimal(s: Seq<char>) -> bool {
    forall|i: int| 0 <= i < s.len() ==> "0123456789abcdefABCDEF"@.contains(#[trigger] s[i])
}

/// An identifier is five groups of hexadecimal digits, of eight, four, four, four and twelve, with
/// hyphens between them, and every text of that form is one.
#[verifier::spinoff_prover]
#[verifier::rlimit(60)]
pub proof fn identifier_is_five_groups(s: Seq<char>)
    ensures
        is_profile_id(s) <==> {
            &&& s.len() == 36
            &&& hexadecimal(s.subrange(0, 8))
            &&& hexadecimal(s.subrange(9, 13))
            &&& hexadecimal(s.subrange(14, 18))
            &&& hexadecimal(s.subrange(19, 23))
            &&& hexadecimal(s.subrange(24, 36))
            &&& s[8] == '-' && s[13] == '-' && s[18] == '-' && s[23] == '-'
        },
{
    let digits = "0123456789abcdefABCDEF"@;
    assert forall|c: char| hex_digit(c) <==> #[trigger] digits.contains(c) by {
        lemma_hex_digits(c);
    }
    if s.len() == 36 {
        let (a, b, c, d, e) = (s.subrange(0, 8), s.subrange(9, 13), s.subrange(14, 18), s.subrange(19, 23), s.subrange(24, 36));
        if is_profile_id(s) {
            assert forall|i: int| 0 <= i < 8 implies digits.contains(#[trigger] a[i]) by {
                assert(hex_digit(s[i]));
            }
            assert forall|i: int| 0 <= i < 4 implies digits.contains(#[trigger] b[i]) by {
                assert(hex_digit(s[9 + i]));
            }
            assert forall|i: int| 0 <= i < 4 implies digits.contains(#[trigger] c[i]) by {
                assert(hex_digit(s[14 + i]));
            }
            assert forall|i: int| 0 <= i < 4 implies digits.contains(#[trigger] d[i]) by {
                assert(hex_digit(s[19 + i]));
            }
            assert forall|i: int| 0 <= i < 12 implies digits.contains(#[trigger] e[i]) by {
                assert(hex_digit(s[24 + i]));
            }
            assert(s[8] == '-' && s[13] == '-' && s[18] == '-' && s[23] == '-');
        }
        if hexadecimal(a) && hexadecimal(b) && hexadecimal(c) && hexadecimal(d) && hexadecimal(e) && s[8] == '-' && s[13]
            == '-' && s[18] == '-' && s[23] == '-' {
            assert forall|i: int| 0 <= i < 36 implies if hyphen_place(i) {
                #[trigger] s[i] == '-'
            } else {
                hex_digit(s[i])
            } by {
                if i < 8 {
                    assert(digits.contains(a[i]));
                } else if 8 < i < 13 {
                    assert(digits.contains(b[i - 9]));
                } else if 13 < i < 18 {
                    assert(digits.contains(c[i - 14]));
                } else if 18 < i < 23 {
                    assert(digits.contains(d[i - 19]));
                } else if 23 < i {
                    assert(digits.contains(e[i - 24]));
                }
            }
        }
    }
}

proof fn lemma_hex_digits(c: char)
    ensures
        hex_digit(c) <==> "0123456789abcdefABCDEF"@.contains(c),
{
    reveal_strlit("0123456789abcdefABCDEF");
    let digits = "0123456789abcdefABCDEF"@;
    if '0' <= c <= '9' {
        assert(digits[c as u32 - '0' as u32] == c);
    }
    if 'a' <= c <= 'f' {
        assert(digits[10 + (c as u32 - 'a' as u32)] == c);
    }
    if 'A' <= c <= 'F' {
        assert(digits[16 + (c as u32 - 'A' as u32)] == c);
    }
}

/// The colors that profiles get in turn.
pub open spec fn colors() -> Seq<Seq<char>> {
    seq!["#8a3d2f"@, "#3f5d7a"@, "#3f6f52"@, "#8a6a2f"@, "#6a4d8a"@, "#a0523d"@]
}

/// Profiles get the six colors in turn: six that are created one after the other have six different
/// ones, and the next begins anew.
pub proof fn profiles_get_the_colors_in_turn(index: nat, i: nat, j: nat)
    ensures
        palette(index) == colors()[(index % 6) as int],
        palette(index + 6) == palette(index),
        i < j < 6 ==> palette(index + i) != palette(index + j),
{
    reveal_strlit("#8a3d2f");
    reveal_strlit("#3f5d7a");
    reveal_strlit("#3f6f52");
    reveal_strlit("#8a6a2f");
    reveal_strlit("#6a4d8a");
    reveal_strlit("#a0523d");
    let c = colors();
    assert(c[0][1] == '8' && c[1][1] == '3' && c[2][1] == '3' && c[3][1] == '8' && c[4][1] == '6' && c[5][1] == 'a');
    assert(c[0][3] == '3' && c[3][3] == '6');
    assert(c[1][3] == '5' && c[2][3] == '6');
}

/// A new profile has the given identifier and name, white space around the name aside, a color by
/// its place and the time of its creation, and was never used.
pub proof fn new_profile_has_what_it_was_given(id: Seq<char>, name: Seq<char>, index: nat, now: u64)
    ensures
        ({
            let record = record_of(id, name, index, now);
            &&& record.id == id
            &&& record.name == trimmed(name)
            &&& record.color == colors()[(index % 6) as int]
            &&& record.created_at == now
            &&& record.last_used_at is None
        }),
{
    profiles_get_the_colors_in_turn(index, 0, 1);
}

/// What the picker shows of a profile tells the profile's own values, so two profiles that are shown
/// alike are alike.
pub proof fn summary_tells_the_profile(
    summary: ProfileSummary,
    record: ProfileRecordView,
    other: ProfileRecordView,
    running: bool,
)
    requires
        summary.shows(record, running),
    ensures
        summary.id@ == record.id && summary.name@ == record.name && summary.color@ == record.color,
        summary.created_at == record.created_at && summary.last_used_at == record.last_used_at,
        summary.running == running,
        summary.shows(other, running) ==> other == record,
{
}

/// A text that is no identifier is refused for its length first, then for a character that no
/// identifier has, and then for its form.
pub proof fn refusal_names_the_first_fault(raw: Seq<char>)
    ensures
        vstd::utf8::encode_utf8(raw).len() != 36 ==> id_refusal(raw) == "Profile id must be a UUID."@,
        vstd::utf8::encode_utf8(raw).len() == 36 && (exists|i: int|
            0 <= i < raw.len() && !"0123456789abcdefABCDEF"@.contains(#[trigger] raw[i]) && raw[i] != '-') ==> id_refusal(
            raw,
        ) == "Profile id contains invalid characters."@,
        vstd::utf8::encode_utf8(raw).len() == 36 && !(exists|i: int|
            0 <= i < raw.len() && !"0123456789abcdefABCDEF"@.contains(#[trigger] raw[i]) && raw[i] != '-') ==> id_refusal(
            raw,
        ) == "Profile id is not a well-formed UUID."@,
{
    assert forall|i: int| 0 <= i < raw.len() implies (hex_digit(#[trigger] raw[i])
        <==> "0123456789abcdefABCDEF"@.contains(raw[i])) by {
        lemma_hex_digits(raw[i]);
    }
}

} // verus!
