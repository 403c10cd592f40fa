//! The date of a match as text.

use crate::error::TicketError;
use chrono::DateTime;
use vstd::prelude::*;

verus! {

/// What chrono writes, under the format `pattern`, for the moment that lies
/// `seconds` seconds after the start of 1970 in UTC; `None` where that moment
/// is outside the range of chrono's calendar.
pub uninterp spec fn utc_text(seconds: int, pattern: Seq<char>) -> Option<Seq<char>>;

/// The format of a date on a ticket: year, month and day, then hour and
/// minute.
pub open spec fn minute_pattern() -> Seq<char> {
    "%Y-%m-%d %H:%M"@
}

/// The date of a match as text, in UTC and to the minute; `None` where the
/// timestamp cannot be read as a moment of the calendar. Timestamps beyond the
/// signed 64-bit range are never read.
pub open spec fn date_text(date: u64) -> Option<Seq<char>> {
    if date <= i64::MAX {
        utc_text(date as int, minute_pattern())
    } else {
        None
    }
}

/// Calls `chrono::DateTime::from_timestamp` with no nanoseconds and, where it
/// yields a moment, `DateTime::format` on it, written out with `to_string`.
/// The contract claims only that the outcome is the one named [`utc_text`]:
/// the same seconds and pattern always give the same text or the same refusal.
/// The pattern is held to the one the library uses, which chrono can write.
#[verifier::external_body]
fn format_utc(seconds: i64, pattern: &str) -> (text: Option<String>)
    requires
        pattern@ == minute_pattern(),
    ensures
        match text {
            Some(written) => utc_text(seconds as int, pattern@) == Some(written@),
            None => utc_text(seconds as int, pattern@) is None,
        },
{
    match DateTime::from_timestamp(seconds, 0) {
        Some(moment) => Some(moment.format(pattern).to_string()),
        None => None,
    }
}

/// Writes the date of a match, in UTC and to the minute.
///
/// Fails with [`TicketError::InvalidTimestamp`] exactly where [`date_text`]
/// has no text for `date`.
pub fn format_date(date: u64) -> (text: Result<String, TicketError>)
    ensures
        match text {
            Ok(written) => date_text(date) == Some(written@),
            Err(error) => error == TicketError::InvalidTimestamp && date_text(date) is None,
        },
{
    if date > 0x7fff_ffff_ffff_ffff {
        return Err(TicketError::InvalidTimestamp);
    }
    match format_utc(date as i64, "%Y-%m-%d %H:%M") {
        Some(written) => Ok(written),
        None => Err(TicketError::InvalidTimestamp),
    }
}

} // verus!
