//! Instants on the UTC time line, counted in whole seconds from the start of
//! 1970, and the calendar work that leads to them and back. The calendar
//! itself is chrono's.

use crate::json::is_quoted;
use vstd::prelude::*;

verus! {

/// The instant, in seconds since 1970-01-01T00:00:00Z, at which clocks that
/// run `offset_seconds` ahead of UTC show the given second of the given
/// day, in the calendar that chrono keeps; `None` where chrono knows no such
/// second.
pub uninterp spec fn utc_seconds(
    offset_seconds: int,
    year: int,
    month: int,
    day: int,
    hour: int,
    minute: int,
    second: int,
) -> Option<int>;

/// The instant `seconds` and `nanoseconds` after the start of 1970 in UTC,
/// as serde_json writes chrono's date and time for it; `None` where chrono
/// has no date for it.
pub uninterp spec fn instant_literal(seconds: int, nanoseconds: int) -> Option<Seq<char>>;

/// What every date and time that chrono accepts has: an offset of less than
/// a day, a month of the year, a day no later than the 31st, an hour, a
/// minute and a second of the clock.
pub open spec fn fields_in_range(
    offset_seconds: int,
    month: int,
    day: int,
    hour: int,
    minute: int,
    second: int,
) -> bool {
    &&& -86_400 < offset_seconds < 86_400
    &&& 1 <= month <= 12
    &&& 1 <= day <= 31
    &&& 0 <= hour <= 23
    &&& 0 <= minute <= 59
    &&& 0 <= second <= 59
}

/// Calls `chrono::FixedOffset::east_opt`, on the zone so made
/// `chrono::TimeZone::with_ymd_and_hms`, and on the date and time so made
/// `chrono::DateTime::timestamp`.
///
/// Trusted: the result is a function of the seven numbers, named
/// [`utc_seconds`]. Chrono gives no time unless the numbers are
/// [`fields_in_range`]. The offset is counted east of UTC: the same date and
/// time without an offset is an instant, and it lies `offset_seconds` later.
/// An instant so made can be written by [`instant_to_json`] without
/// nanoseconds, since chrono makes a date and time from its own timestamp
/// again.
#[verifier::external_body]
pub(crate) fn local_to_utc(
    offset_seconds: i32,
    year: i32,
    month: u32,
    day: u32,
    hour: u32,
    minute: u32,
    second: u32,
) -> (r: Option<i64>)
    ensures
        r matches Some(s) ==> utc_seconds(
            offset_seconds as int,
            year as int,
            month as int,
            day as int,
            hour as int,
            minute as int,
            second as int,
        ) == Some(s as int),
        r is None ==> utc_seconds(
            offset_seconds as int,
            year as int,
            month as int,
            day as int,
            hour as int,
            minute as int,
            second as int,
        ) is None,
        r is Some ==> fields_in_range(
            offset_seconds as int,
            month as int,
            day as int,
            hour as int,
            minute as int,
            second as int,
        ),
        r matches Some(s) ==> utc_seconds(
            0,
            year as int,
            month as int,
            day as int,
            hour as int,
            minute as int,
            second as int,
        ) == Some(s + offset_seconds),
        r matches Some(s) ==> instant_literal(s as int, 0) is Some,
{
    let zone = chrono::FixedOffset::east_opt(offset_seconds);
    let local = match zone {
        Some(zone) => chrono::TimeZone::with_ymd_and_hms(&zone, year, month, day, hour, minute, second),
        None => chrono::LocalResult::None,
    };
    match local {
        chrono::LocalResult::Single(local) => Some(local.timestamp()),
        _ => None,
    }
}

/// Calls `chrono::DateTime::from_timestamp` and, on the date and time so
/// made, `serde_json::to_string`.
///
/// Trusted: the result is a function of the two numbers, named
/// [`instant_literal`]; what serde_json writes for a date and time is a
/// string, between two quotes.
#[verifier::external_body]
pub(crate) fn instant_to_json(seconds: i64, nanoseconds: u32) -> (r: Option<String>)
    ensures
        r matches Some(text) ==> instant_literal(seconds as int, nanoseconds as int) == Some(text@),
        r is None ==> instant_literal(seconds as int, nanoseconds as int) is None,
        r matches Some(text) ==> is_quoted(text@),
{
    match chrono::DateTime::from_timestamp(seconds, nanoseconds) {
        Some(instant) => serde_json::to_string(&instant).ok(),
        None => None,
    }
}

} // verus!
