//! Web addresses, taken apart by the `url` crate.

use crate::text::{has_prefix, opt_text};
use vstd::prelude::*;

verus! {

/// What the browser reads of a parsed web address.
#[derive(Debug)]
pub struct Address {
    /// The address written out.
    pub text: String,
    pub scheme: String,
    pub host: Option<String>,
    pub path: String,
    /// The decoded name and value pairs of the query.
    pub pairs: Vec<(String, String)>,
}

/// An address as sequences of characters.
#[verifier::ext_equal]
pub struct AddressView {
    pub text: Seq<char>,
    pub scheme: Seq<char>,
    pub host: Option<Seq<char>>,
    pub path: Seq<char>,
    pub pairs: Seq<(Seq<char>, Seq<char>)>,
}

/// The view of one query pair.
pub open spec fn pair_text(pair: (String, String)) -> (Seq<char>, Seq<char>) {
    (pair.0@, pair.1@)
}

/// The views of query pairs.
pub open spec fn pair_texts(pairs: Seq<(String, String)>) -> Seq<(Seq<char>, Seq<char>)> {
    Seq::new(pairs.len(), |i: int| pair_text(pairs[i]))
}

impl View for Address {
    type V = AddressView;

    open spec fn view(&self) -> AddressView {
        AddressView {
            text: self.text@,
            scheme: self.scheme@,
            host: opt_text(self.host),
            path: self.path@,
            pairs: pair_texts(self.pairs@),
        }
    }
}

/// The view of the outcome of parsing an address.
pub open spec fn address_outcome(r: Result<Address, String>) -> Result<AddressView, Seq<char>> {
    match r {
        Ok(address) => Ok(address@),
        Err(message) => Err(message@),
    }
}

/// What `url::Url::parse` makes of a text: the address, or the message of its error.
pub uninterp spec fn parsed_address(input: Seq<char>) -> Result<AddressView, Seq<char>>;

/// What `url::Url::parse_with_params` makes of a base address and one more query pair.
pub uninterp spec fn address_with_pair(base: Seq<char>, name: Seq<char>, value: Seq<char>) -> Result<AddressView, Seq<char>>;

/// The host of a text that is `https://`, a host and a slash.
pub open spec fn base_host(text: Seq<char>) -> Seq<char> {
    text.subrange(8, text.len() - 1)
}

/// Whether a text is `https://`, a host of small letters and dots, and a slash, and is not overly
/// long. Such an address is written as it is read.
pub open spec fn plain_base(text: Seq<char>) -> bool {
    &&& 9 < text.len() <= 0xffff
    &&& has_prefix(text, "https://"@)
    &&& text.last() == '/'
    &&& forall|i: int| 0 <= i < base_host(text).len() ==> 'a' <= #[trigger] base_host(text)[i] <= 'z' || base_host(text)[i] == '.'
}

/// What a plain text is as an address.
pub open spec fn base_address(text: Seq<char>) -> AddressView {
    AddressView {
        text,
        scheme: "https"@,
        host: Some(base_host(text)),
        path: "/"@,
        pairs: Seq::empty(),
    }
}

/// Whether an address is that of a plain base with one query pair, and its text is read as the
/// same address again.
pub open spec fn is_plain_extension(address: AddressView, base: Seq<char>, name: Seq<char>, value: Seq<char>) -> bool {
    &&& address == AddressView { text: address.text, pairs: seq![(name, value)], ..base_address(base) }
    &&& parsed_address(address.text) == Ok::<AddressView, Seq<char>>(address)
}

/// Calls `url::Url::parse` and copies out the serialization, the scheme, the host, the path and
/// the decoded query pairs, or the error's message. The outcome depends on the text alone and is
/// named `parsed_address`. An address whose text begins with `http://` or `https://` has that
/// scheme. A text that is `https://`, a host of small letters and dots, and a slash is an address,
/// written as it is read.
#[verifier::external_body]
pub(crate) fn parse_address(input: &str) -> (r: Result<Address, String>)
    ensures
        address_outcome(r) == parsed_address(input@),
        r is Ok && has_prefix(input@, "http://"@) ==> r->Ok_0@.scheme == "http"@,
        r is Ok && has_prefix(input@, "https://"@) ==> r->Ok_0@.scheme == "https"@,
        plain_base(input@) ==> r is Ok && r->Ok_0@ == base_address(input@),
{
    match url::Url::parse(input) {
        Ok(url) => Ok(Address {
            text: url.as_str().to_owned(),
            scheme: url.scheme().to_owned(),
            host: url.host_str().map(str::to_owned),
            path: url.path().to_owned(),
            pairs: url.query_pairs().into_owned().collect(),
        }),
        Err(error) => Err(error.to_string()),
    }
}

/// Calls `url::Url::parse_with_params` with a single pair and copies the address out as
/// `parse_address` does. The outcome is named `address_with_pair`. It is an address exactly if
/// the base alone is one, it has the scheme, the host and the path of the base, and its decoded
/// query pairs are those of the base and then the given pair. With a base that is `https://`, a
/// host of small letters and dots, and a slash it is an address whose text is read as the same
/// address again. The length of the base and its lack of a fragment keep every offset within 32
/// bits, beyond which the call panics.
#[verifier::external_body]
pub(crate) fn parse_address_with_pair(base: &str, name: &str, value: &str) -> (r: Result<Address, String>)
    requires
        base@.len() <= 0xffff,
        !base@.contains('#'),
    ensures
        address_outcome(r) == address_with_pair(base@, name@, value@),
        match (address_outcome(r), parsed_address(base@)) {
            (Ok(extended), Ok(plain)) => {
                &&& extended.scheme == plain.scheme
                &&& extended.host == plain.host
                &&& extended.path == plain.path
                &&& extended.pairs == plain.pairs.push((name@, value@))
            },
            (Err(a), Err(b)) => a == b,
            _ => false,
        },
        plain_base(base@) ==> r is Ok && is_plain_extension(r->Ok_0@, base@, name@, value@),
{
    match url::Url::parse_with_params(base, &[(name, value)]) {
        Ok(url) => Ok(Address {
            text: url.as_str().to_owned(),
            scheme: url.scheme().to_owned(),
            host: url.host_str().map(str::to_owned),
            path: url.path().to_owned(),
            pairs: url.query_pairs().into_owned().collect(),
        }),
        Err(error) => Err(error.to_string()),
    }
}

} // verus!
