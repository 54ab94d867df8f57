//! Wall-clock time and timestamps read from text.

use vstd::prelude::*;

verus! {

/// Seconds in one hour.
pub const ONE_HOUR_IN_SECONDS: i64 = 3600;

/// Seconds in one day.
pub const ONE_DAY_IN_SECONDS: i64 = 86400;

/// Seconds in one week.
pub const ONE_WEEK_IN_SECONDS: i64 = 604800;

/// The distance between two instants, in seconds.
pub open spec fn seconds_between(a: int, b: int) -> int {
    if a >= b {
        a - b
    } else {
        b - a
    }
}

/// Computes the distance between two instants; no pair of instants overflows.
pub fn elapsed_between(a: i64, b: i64) -> (gap: u64)
    ensures
        gap == seconds_between(a as int, b as int),
{
    if a >= b {
        (a as i128 - b as i128) as u64
    } else {
        (b as i128 - a as i128) as u64
    }
}

/// The Unix timestamp that `chrono::DateTime::parse_from_rfc3339` followed by
/// `DateTime::timestamp` gives for a text, or `None` where chrono rejects the
/// text. The grammar and the calendar arithmetic are chrono's; nothing else is
/// claimed of this value than that it depends on the text alone.
pub uninterp spec fn rfc3339_timestamp(text: Seq<char>) -> Option<i64>;

#[verifier::external_type_specification]
#[verifier::external_body]
pub struct ExParseError(chrono::ParseError);

/// Calls `chrono::DateTime::parse_from_rfc3339` and, on success,
/// `DateTime::timestamp` on what it returned.
///
/// Trusted: the result is the one named by [`rfc3339_timestamp`] for this
/// text, an error exactly where that is `None`. Neither chrono function
/// panics, and neither reads anything but the text.
#[verifier::external_body]
pub(crate) fn parse_rfc3339(text: &str) -> (parsed: Result<i64, chrono::ParseError>)
    ensures
        match parsed {
            Ok(seconds) => rfc3339_timestamp(text@) == Some(seconds),
            Err(_) => rfc3339_timestamp(text@) is None,
        },
{
    chrono::DateTime::parse_from_rfc3339(text).map(|instant| instant.timestamp())
}

/// Calls `chrono::Utc::now` and `DateTime::timestamp`: the current Unix time
/// in seconds.
///
/// Trusted, and nothing is claimed of the value: two calls may differ in
/// either direction. chrono panics here if the system clock is set before
/// 1970.
#[verifier::external_body]
pub(crate) fn current_timestamp() -> (now: i64) {
    chrono::Utc::now().timestamp()
}

/// Reads a timestamp in RFC 3339 form, such as `2024-01-01T10:00:00+00:00`.
pub fn published_timestamp(text: &str) -> (seconds: Option<i64>)
    ensures
        seconds == rfc3339_timestamp(text@),
{
    match parse_rfc3339(text) {
        Ok(seconds) => Some(seconds),
        Err(_) => None,
    }
}

} // verus!
