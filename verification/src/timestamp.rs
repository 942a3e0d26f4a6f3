//! Times in exported files.

use vstd::prelude::*;

verus! {

/// The last millisecond of the year 9999, counted from the Unix epoch.
pub const LAST_TIMESTAMP: u64 = 253_402_300_799_999;

/// The view of an outcome that is a text or a message.
pub open spec fn text_outcome(r: Result<String, String>) -> Result<Seq<char>, Seq<char>> {
    match r {
        Ok(text) => Ok(text@),
        Err(message) => Err(message@),
    }
}

/// A time in nanoseconds since the Unix epoch, in UTC and as RFC 3339 writes it, or the message
/// of the error.
pub uninterp spec fn rfc3339_text(nanos: int) -> Result<Seq<char>, Seq<char>>;

/// Calls `time::OffsetDateTime::from_unix_timestamp_nanos` and, on its result, `format` with
/// `Rfc3339`. What comes out depends on the number alone and is named `rfc3339_text`. Up to the
/// end of the year 9999 it is a text, after that an error.
#[verifier::external_body]
fn format_rfc3339(nanos: i128) -> (r: Result<String, String>)
    requires
        0 <= nanos,
    ensures
        text_outcome(r) == rfc3339_text(nanos as int),
        r is Ok <==> nanos < 253_402_300_800_000_000_000,
{
    time::OffsetDateTime::from_unix_timestamp_nanos(nanos)
        .map_err(|error| error.to_string())?
        .format(&time::format_description::well_known::Rfc3339)
        .map_err(|error| error.to_string())
}

/// A time in milliseconds since the Unix epoch, in UTC and as RFC 3339 writes it.
pub fn timestamp_iso(timestamp: u64) -> (r: Result<String, String>)
    ensures
        text_outcome(r) == rfc3339_text(timestamp * 1_000_000),
        r is Ok <==> timestamp <= LAST_TIMESTAMP,
{
    format_rfc3339(timestamp as i128 * 1_000_000)
}

} // verus!
