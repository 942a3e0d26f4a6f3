//! The icons that tabs show, as data addresses.

use base64::Engine;
use vstd::prelude::*;

verus! {

/// The size in bytes above which an icon is not shown. The address of an icon is kept with its tab
/// and is part of every message about the tabs.
pub const ICON_LIMIT: usize = 262_144;

/// The base64 sign of a number below 64.
pub open spec fn base64_sign(n: int) -> char {
    "ABCDEFGHIJKLMNOPQRSTUVWXYZabcdefghijklmnopqrstuvwxyz0123456789+/"@[n]
}

/// Bytes in base64 with the standard alphabet: each three bytes are four signs of six bits, and
/// the last group is filled up with `=`.
pub open spec fn base64_text(bytes: Seq<u8>) -> Seq<char>
    decreases bytes.len(),
{
    if bytes.len() == 0 {
        Seq::empty()
    } else if bytes.len() == 1 {
        let a = bytes[0] as int;
        seq![base64_sign(a / 4), base64_sign(a % 4 * 16), '=', '=']
    } else if bytes.len() == 2 {
        let (a, b) = (bytes[0] as int, bytes[1] as int);
        seq![base64_sign(a / 4), base64_sign(a % 4 * 16 + b / 16), base64_sign(b % 16 * 4), '=']
    } else {
        let (a, b, c) = (bytes[0] as int, bytes[1] as int, bytes[2] as int);
        seq![
            base64_sign(a / 4),
            base64_sign(a % 4 * 16 + b / 16),
            base64_sign(b % 16 * 4 + c / 64),
            base64_sign(c % 64),
        ] + base64_text(bytes.skip(3))
    }
}

/// Calls `encode` of `base64::engine::general_purpose::STANDARD`, which writes bytes in base64
/// with the standard alphabet and padding. Within the limit of icons its buffer has a size that
/// can be counted, without which the call panics.
#[verifier::external_body]
fn encode_base64(bytes: &Vec<u8>) -> (r: String)
    requires
        bytes@.len() <= ICON_LIMIT,
    ensures
        r@ == base64_text(bytes@),
{
    base64::engine::general_purpose::STANDARD.encode(bytes)
}

/// An icon that comes in pieces. It never holds more than the limit.
pub struct IconBuffer {
    bytes: Vec<u8>,
    too_large: bool,
}

/// The bytes of an icon, or nothing once they are too many.
pub open spec fn with_piece(icon: Option<Seq<u8>>, piece: Seq<u8>) -> Option<Seq<u8>> {
    match icon {
        Some(bytes) => if bytes.len() + piece.len() > ICON_LIMIT {
            None
        } else {
            Some(bytes + piece)
        },
        None => None,
    }
}

impl View for IconBuffer {
    type V = Option<Seq<u8>>;

    closed spec fn view(&self) -> Option<Seq<u8>> {
        if self.too_large {
            None
        } else {
            Some(self.bytes@)
        }
    }
}

impl IconBuffer {
    #[verifier::type_invariant]
    spec fn within_limit(self) -> bool {
        self.bytes@.len() <= ICON_LIMIT
    }

    /// An icon of which nothing has come.
    pub fn new() -> (r: IconBuffer)
        ensures
            r@ == Some(Seq::<u8>::empty()),
    {
        IconBuffer { bytes: Vec::new(), too_large: false }
    }

    /// Takes the next piece. Tells whether more may come.
    pub fn push(&mut self, piece: &Vec<u8>) -> (r: bool)
        ensures
            final(self)@ == with_piece(old(self)@, piece@),
            r == final(self)@ is Some,
    {
        proof {
            use_type_invariant(&*self);
        }
        if self.too_large {
            return false;
        }
        if piece.len() > ICON_LIMIT - self.bytes.len() {
            self.too_large = true;
            return false;
        }
        let ghost before = self.bytes@;
        let mut bytes: Vec<u8> = Vec::new();
        std::mem::swap(&mut bytes, &mut self.bytes);
        let mut i: usize = 0;
        while i < piece.len()
            invariant
                i <= piece@.len(),
                bytes@ == before + piece@.take(i as int),
            decreases piece@.len() - i,
        {
            bytes.push(piece[i]);
            i = i + 1;
            assert(piece@.take(i as int) =~= piece@.take(i - 1).push(piece@[i - 1]));
            assert(before + piece@.take(i as int) =~= (before + piece@.take(i - 1)).push(piece@[i - 1]));
        }
        assert(piece@.take(i as int) =~= piece@);
        self.bytes = bytes;
        true
    }

    /// The address of the whole icon, if there is one.
    pub fn data_url(&self) -> (r: Option<String>)
        ensures
            match r {
                Some(url) => {
                    &&& self@ matches Some(bytes)
                    &&& bytes.len() > 0
                    &&& url@ == "data:image/png;base64,"@ + base64_text(bytes)
                },
                None => self@ matches Some(bytes) ==> bytes.len() == 0,
            },
            match r {
                Some(url) => icon_url(self@) == Some(url@),
                None => icon_url(self@) is None,
            },
    {
        proof {
            use_type_invariant(self);
        }
        if self.too_large || self.bytes.len() == 0 {
            return None;
        }
        let mut url: String = "data:image/png;base64,".to_owned();
        url.append(encode_base64(&self.bytes).as_str());
        Some(url)
    }
}

/// The address of an icon holds four signs for each three bytes, so its length is bounded too.
pub proof fn icon_address_is_bounded(bytes: Seq<u8>)
    ensures
        base64_text(bytes).len() == (bytes.len() + 2) / 3 * 4,
        bytes.len() <= ICON_LIMIT ==> base64_text(bytes).len() <= 349_528,
    decreases bytes.len(),
{
    if bytes.len() >= 3 {
        icon_address_is_bounded(bytes.skip(3));
    }
}

/// The bytes of an icon after several pieces have come.
pub open spec fn with_pieces(icon: Option<Seq<u8>>, pieces: Seq<Seq<u8>>) -> Option<Seq<u8>>
    decreases pieces.len(),
{
    if pieces.len() == 0 {
        icon
    } else {
        with_piece(with_pieces(icon, pieces.drop_last()), pieces.last())
    }
}

/// An icon is its pieces, one after the other, as long as they are no more than 262144 bytes together,
/// however it is cut. Once they are more, it is given up and stays so.
pub proof fn icon_is_its_pieces(bytes: Seq<u8>, first: Seq<u8>, second: Seq<u8>)
    requires
        bytes.len() <= 262_144,
    ensures
        bytes.len() + first.len() <= 262_144 ==> with_piece(Some(bytes), first) == Some(bytes + first),
        bytes.len() + first.len() > 262_144 ==> with_piece(Some(bytes), first) is None,
        with_piece(None, first) is None,
        with_pieces(Some(bytes), seq![first, second]) == with_piece(Some(bytes), first + second),
{
    reveal_with_fuel(with_pieces, 3);
    assert(seq![first, second].drop_last() =~= seq![first]);
    assert(seq![first].drop_last() =~= Seq::<Seq<u8>>::empty());
    assert(bytes + first + second =~= bytes + (first + second));
}

/// The address of an icon, if there is one.
pub open spec fn icon_url(icon: Option<Seq<u8>>) -> Option<Seq<char>> {
    match icon {
        Some(bytes) => if bytes.len() > 0 {
            Some("data:image/png;base64,"@ + base64_text(bytes))
        } else {
            None
        },
        None => None,
    }
}

/// An icon with bytes in it is shown as a PNG image, and neither an empty one nor one that was given
/// up is shown.
pub proof fn icon_is_shown_if_there_is_one(bytes: Seq<u8>)
    ensures
        bytes.len() > 0 ==> icon_url(Some(bytes)) == Some("data:image/png;base64,"@ + base64_text(bytes)),
        icon_url(Some(Seq::<u8>::empty())) is None,
        icon_url(None) is None,
{
}

} // verus!
