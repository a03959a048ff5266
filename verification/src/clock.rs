//! Calendar texts of points in time.

use std::fmt::Write;
use vstd::prelude::*;

verus! {

/// What chrono writes for the point in time `seconds` after the Unix
/// epoch, in UTC, under the strftime pattern `pattern`.
pub uninterp spec fn utc_text(seconds: i64, pattern: Seq<char>) -> Seq<char>;

/// Calls chrono's `DateTime::from_timestamp` and `DateTime::format`, and
/// writes the result out.
///
/// Trusted: the text is a function of the seconds and the pattern alone.
/// A number of seconds that chrono cannot hold is written as the epoch.
/// Under a pattern that chrono cannot read nothing is written, and the
/// text is empty.
#[verifier::external_body]
fn format_utc(seconds: i64, pattern: &str) -> (text: String)
    ensures
        text@ == utc_text(seconds, pattern@),
{
    let moment = chrono::DateTime::from_timestamp(seconds, 0).unwrap_or_default();
    let mut text = String::new();
    let _ = write!(text, "{}", moment.format(pattern));
    text
}

/// The pattern of a full date: day, month, year, then the time of day.
pub open spec fn date_pattern() -> Seq<char> {
    "%d/%m/%Y %H:%M:%S"@
}

/// The pattern of a time of day.
pub open spec fn clock_pattern() -> Seq<char> {
    "%H:%M:%S"@
}

/// The date and time of day of `seconds` after the Unix epoch, in UTC.
pub fn date_text(seconds: i64) -> (text: String)
    ensures
        text@ == utc_text(seconds, date_pattern()),
{
    format_utc(seconds, "%d/%m/%Y %H:%M:%S")
}

/// The time of day of `seconds` after the Unix epoch, in UTC.
pub fn clock_text(seconds: i64) -> (text: String)
    ensures
        text@ == utc_text(seconds, clock_pattern()),
{
    format_utc(seconds, "%H:%M:%S")
}

} // verus!
