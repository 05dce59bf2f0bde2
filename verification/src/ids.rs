//! Random identifiers and the wall clock.

use vstd::prelude::*;

verus! {

/// Whether `c` is a lower-case hexadecimal digit.
pub open spec fn is_lower_hex(c: char) -> bool {
    ('0' <= c && c <= '9') || ('a' <= c && c <= 'f')
}

/// Whether `s` is a random (version 4) UUID in hyphenated lower-case form:
/// 36 characters, hyphens at offsets 8, 13, 18 and 23, hexadecimal digits
/// elsewhere, the version digit `4` and a variant digit of `8` to `b`.
pub open spec fn is_uuid_v4_text(s: Seq<char>) -> bool {
    &&& s.len() == 36
    &&& forall|i: int| 0 <= i < 36 ==> (if i == 8 || i == 13 || i == 18 || i == 23 {
        s[i] == '-'
    } else {
        is_lower_hex(#[trigger] s[i])
    })
    &&& s[14] == '4'
    &&& (s[19] == '8' || s[19] == '9' || s[19] == 'a' || s[19] == 'b')
}

/// Calls `uuid::Uuid::new_v4` and renders it with `to_string`. `new_v4`
/// masks random bits so that the version is 4 and the variant RFC 4122, and
/// `Display` writes the hyphenated lower-case form; the other digits are
/// random, so nothing more is stated.
#[verifier::external_body]
pub fn new_uuid_string() -> (s: String)
    ensures
        is_uuid_v4_text(s@),
{
    uuid::Uuid::new_v4().to_string()
}

/// A reading of the wall clock: whole seconds since the Unix epoch and the
/// nanoseconds past them, and the same instant rendered in RFC 3339.
pub struct ClockReading {
    pub unix_seconds: i64,
    pub subsec_nanos: u32,
    pub rfc3339: String,
}

/// Calls `chrono::Utc::now`, then `timestamp`, `timestamp_subsec_nanos` and
/// `to_rfc3339` on the result. The time depends on the machine, so nothing
/// is stated.
#[verifier::external_body]
pub fn clock_now() -> ClockReading {
    let now = chrono::Utc::now();
    ClockReading {
        unix_seconds: now.timestamp(),
        subsec_nanos: now.timestamp_subsec_nanos(),
        rfc3339: now.to_rfc3339(),
    }
}

/// The name of what `chrono::DateTime::parse_from_rfc3339` followed by
/// `timestamp` and `timestamp_subsec_nanos` yields for a text.
pub uninterp spec fn rfc3339_instant(text: Seq<char>) -> Option<(i64, u32)>;

/// Calls `chrono::DateTime::parse_from_rfc3339`, then `timestamp` and
/// `timestamp_subsec_nanos`: the instant a text names, as whole seconds
/// since the Unix epoch and the nanoseconds past them, or `None` where the
/// text does not parse. Every parsed instant has both, so none is lost. The
/// parser itself is not written out here; its result is named.
#[verifier::external_body]
pub fn parse_rfc3339_instant(text: &str) -> (r: Option<(i64, u32)>)
    ensures
        r == rfc3339_instant(text@),
{
    match chrono::DateTime::parse_from_rfc3339(text) {
        Ok(t) => Some((t.timestamp(), t.timestamp_subsec_nanos())),
        Err(_) => None,
    }
}

/// The nanoseconds since the Unix epoch of the instant `secs` seconds and
/// `nanos` nanoseconds after it.
pub open spec fn instant_nanos(secs: i64, nanos: u32) -> int {
    secs * 1_000_000_000 + nanos
}

/// `instant_nanos`, computed.
pub fn instant_nanos_exec(secs: i64, nanos: u32) -> (r: i128)
    ensures
        r == instant_nanos(secs, nanos),
{
    (secs as i128) * 1_000_000_000i128 + (nanos as i128)
}

/// The name of what `chrono::DateTime::<Utc>::from_timestamp_nanos`
/// followed by `to_string` gives for an instant.
pub uninterp spec fn utc_display(nanos: i64) -> Seq<char>;

/// Calls `chrono::DateTime::<Utc>::from_timestamp_nanos` and renders the
/// instant with `to_string`, as chrono displays a UTC time. The format is
/// chrono's and is not written out here; the result is named.
#[verifier::external_body]
pub fn format_utc(nanos: i64) -> (r: String)
    ensures
        r@ == utc_display(nanos),
{
    chrono::DateTime::<chrono::Utc>::from_timestamp_nanos(nanos).to_string()
}

} // verus!
