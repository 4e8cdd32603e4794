//! Dates as the pages show them.

use vstd::prelude::*;

verus! {

/// The first Unix timestamp that has a date (-9999-01-01 00:00:00 UTC).
pub const MIN_TIMESTAMP: i64 = -377705116800;

/// The last Unix timestamp that has a date (9999-12-31 23:59:59 UTC).
pub const MAX_TIMESTAMP: i64 = 253402300799;

/// How the file page writes a date: year, month and day, in the `time`
/// crate's format description language.
pub const DATE_FORMAT: &'static str = "[year]-[month]-[day]";

/// A Unix timestamp's date and time (UTC) written by the `time` crate
/// after the format description `description`.
pub uninterp spec fn pretty_date_of(timestamp: i64, description: Seq<char>) -> Seq<char>;

/// The date of a Unix timestamp, written after a format description by
/// the `time` crate: `format_description::parse(description)`, then
/// `OffsetDateTime::from_unix_timestamp`, then `OffsetDateTime::format`.
/// Claimed: what comes back is `pretty_date_of(timestamp, description)`; and
/// for the description `[year]-[month]-[day]` a date comes back exactly
/// for the timestamps from `MIN_TIMESTAMP` to `MAX_TIMESTAMP` (the range
/// of `from_unix_timestamp`; that description parses, and formatting its
/// components into a string does not fail).
#[verifier::external_body]
pub(crate) fn timestamp_to_pretty_date(timestamp: i64, description: &str) -> (r: Option<String>)
    ensures
        description@ == DATE_FORMAT@ ==> (r is Some <==> MIN_TIMESTAMP <= timestamp <= MAX_TIMESTAMP),
        r matches Some(s) ==> s@ == pretty_date_of(timestamp, description@),
{
    let pretty_date_format = time::format_description::parse(description).ok()?;
    let added_date = time::OffsetDateTime::from_unix_timestamp(timestamp).ok()?;
    let pretty_added_date = added_date.format(&pretty_date_format).ok()?;
    Some(pretty_added_date)
}

/// What the file page shows as the date a file was added.
pub open spec fn added_date_text(timestamp: i64) -> Seq<char> {
    if MIN_TIMESTAMP <= timestamp <= MAX_TIMESTAMP {
        pretty_date_of(timestamp, DATE_FORMAT@)
    } else {
        "not available"@
    }
}

/// The date a file was added, or `not available`.
pub fn added_date(timestamp: i64) -> (s: String)
    ensures
        s@ == added_date_text(timestamp),
{
    match timestamp_to_pretty_date(timestamp, DATE_FORMAT) {
        Some(s) => s,
        None => crate::text::owned("not available"),
    }
}

} // verus!
