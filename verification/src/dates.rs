//! Reading the date of a message and writing the day that a search starts at.

use std::fmt::Write;
use vstd::prelude::*;
use crate::text::opt_text;

verus! {

/// What `mailparse::dateparse` makes of a `Date` header: seconds since the
/// Unix epoch, or nothing where it cannot read the text.
pub uninterp spec fn date_seconds(date: Seq<char>) -> Option<i64>;

/// Calls `mailparse::dateparse`, which reads the date of an internet message
/// and returns seconds since the Unix epoch, and drops its error. The
/// contract only names the result.
#[verifier::external_body]
pub(crate) fn dateparse(date: &str) -> (r: Option<i64>)
    ensures
        r == date_seconds(date@),
{
    mailparse::dateparse(date).ok()
}

/// What chrono writes for an instant in UTC: the RFC 3339 text of
/// `DateTime::from_timestamp(secs, nanos)`, or nothing where chrono has no
/// such instant.
pub uninterp spec fn utc_rfc3339(secs: i64, nanos: u32) -> Option<Seq<char>>;

/// Calls `chrono::DateTime::from_timestamp` and, on the instant it returns,
/// `DateTime::to_rfc3339`. The contract only names the result.
#[verifier::external_body]
pub(crate) fn rfc3339_at(secs: i64, nanos: u32) -> (r: Option<String>)
    ensures
        opt_text(r) == utc_rfc3339(secs, nanos),
{
    match chrono::DateTime::from_timestamp(secs, nanos) {
        Some(at) => Some(at.to_rfc3339()),
        None => None,
    }
}

/// What chrono writes for an RFC 3339 text under a `strftime` pattern: the
/// instant `DateTime::parse_from_rfc3339(raw)` in its own offset, formatted
/// by `pattern`; nothing where the text does not parse or the pattern cannot
/// be written.
pub uninterp spec fn formatted_instant(raw: Seq<char>, pattern: Seq<char>) -> Option<Seq<char>>;

/// Calls `chrono::DateTime::parse_from_rfc3339` and writes what
/// `DateTime::format` gives for the pattern. The contract only names the
/// result.
#[verifier::external_body]
pub(crate) fn format_instant(raw: &str, pattern: &str) -> (r: Option<String>)
    ensures
        opt_text(r) == formatted_instant(raw@, pattern@),
{
    let at = chrono::DateTime::parse_from_rfc3339(raw).ok()?;
    let mut out = String::new();
    write!(out, "{}", at.format(pattern)).ok()?;
    Some(out)
}

/// The stored time of a message with the given `Date` header: the header's
/// instant in UTC as RFC 3339, absent where the header is absent or unreadable.
pub open spec fn received_time_of(date: Option<Seq<char>>) -> Option<Seq<char>> {
    match date {
        Some(text) => match date_seconds(text) {
            Some(secs) => utc_rfc3339(secs, 0),
            None => None,
        },
        None => None,
    }
}

/// Reads the `Date` header of a message. An unreadable date is no error: the
/// time is then absent.
pub fn parse_received_time(value: Option<String>) -> (r: Option<String>)
    ensures
        opt_text(r) == received_time_of(opt_text(value)),
{
    match value {
        Some(text) => match dateparse(text.as_str()) {
            Some(secs) => rfc3339_at(secs, 0),
            None => None,
        },
        None => None,
    }
}

/// The day that a search since `last_check_time` starts at, written as the
/// mailbox protocol wants it (`01-Jan-2024`): absent where the time is absent
/// or is no RFC 3339 text.
pub open spec fn since_day(last_check_time: Option<Seq<char>>) -> Option<Seq<char>> {
    match last_check_time {
        Some(raw) => formatted_instant(raw, "%d-%b-%Y"@),
        None => None,
    }
}

/// The day that a search since `last_check_time` starts at.
pub fn format_imap_since(last_check_time: &Option<String>) -> (r: Option<String>)
    ensures
        opt_text(r) == since_day(opt_text(*last_check_time)),
{
    match last_check_time {
        Some(raw) => format_instant(raw.as_str(), "%d-%b-%Y"),
        None => None,
    }
}

} // verus!
