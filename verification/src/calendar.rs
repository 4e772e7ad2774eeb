//! Calendar arithmetic in UTC, as the `chrono` crate does it.

use vstd::prelude::*;
use chrono::{Datelike, TimeZone};

verus! {

/// The UTC calendar date of an instant given in milliseconds since the epoch:
/// year, month (1..=12), day of month (1..=31) and weekday counted from Monday
/// (0..=6); nothing for instants outside the range `chrono` represents.
pub uninterp spec fn utc_civil_date(ms: int) -> Option<(int, int, int, int)>;

/// The instant of midnight UTC starting the given calendar date, in
/// milliseconds since the epoch; nothing for a date that does not exist or
/// lies outside the range `chrono` represents.
pub uninterp spec fn utc_midnight(year: int, month: int, day: int) -> Option<int>;

/// The instant as "YYYY-MM-DD HH:MM" in UTC; nothing outside the range
/// `chrono` represents.
pub uninterp spec fn utc_minute_text(ms: int) -> Option<Seq<char>>;

/// Magnitude below which every instant `chrono` represents lies: its years
/// run from -262143 to 262142, less than 10^16 milliseconds from the epoch.
pub open spec fn instant_bound() -> int {
    10_000_000_000_000_000
}

/// Magnitude within which every instant has a calendar date: 8 * 10^15
/// milliseconds is about 253 500 years, inside chrono's years -262143 to 262142.
pub open spec fn dated_bound() -> int {
    8_000_000_000_000_000
}

/// The first day of the month after month `m` of year `y`.
pub open spec fn next_month(y: int, m: int) -> (int, int) {
    if m == 12 {
        (y + 1, 1)
    } else {
        (y, m + 1)
    }
}

/// `Utc.timestamp_millis_opt(ms).single()` split into year, month, day and
/// `weekday().num_days_from_monday()`. The crate documents the month as 1..=12,
/// the day as 1..=31 and the weekday number as Monday = 0 .. Sunday = 6; its
/// source bounds the year by `MIN_YEAR` and `MAX_YEAR` (-262143 and 262142),
/// and `from_timestamp_millis` refuses instants beyond that range and accepts
/// those within it. The date is the UTC day containing the instant: its
/// midnight is at most the instant and the next midnight a day later is past
/// it; the first of its month and of its year begin no later, and the first
/// of the next month and of the next year, where they exist, begin after it.
#[verifier::external_body]
pub(crate) fn utc_date_parts(ms: i64) -> (r: Option<(i32, u32, u32, u32)>)
    ensures
        -dated_bound() <= ms <= dated_bound() ==> r is Some,
        match r {
            Some((y, m, d, w)) => {
                &&& utc_civil_date(ms as int) == Some((y as int, m as int, d as int, w as int))
                &&& 1 <= m <= 12
                &&& 1 <= d <= 31
                &&& w <= 6
                &&& -262143 <= y <= 262142
                &&& -instant_bound() < ms < instant_bound()
                &&& utc_midnight(y as int, m as int, d as int) matches Some(t) && t <= ms < t
                    + 86_400_000
                &&& utc_midnight(y as int, m as int, 1) matches Some(t) && t <= ms
                &&& utc_midnight(y as int, 1, 1) matches Some(t) && t <= ms
                &&& utc_midnight(next_month(y as int, m as int).0, next_month(y as int, m as int).1, 1) matches Some(t) ==> ms < t
                &&& utc_midnight(y + 1, 1, 1) matches Some(t) ==> ms < t
            },
            None => utc_civil_date(ms as int) is None,
        },
{
    match chrono::Utc.timestamp_millis_opt(ms).single() {
        Some(dt) => Some((dt.year(), dt.month(), dt.day(), dt.weekday().num_days_from_monday())),
        None => None,
    }
}

/// `NaiveDate::from_ymd_opt(year, month, day)` at `and_hms_opt(0, 0, 0)`, read
/// as UTC and converted with `timestamp_millis`. The result lies within the
/// range `chrono` represents. `from_ymd_opt` documents `None` only for a day
/// that does not exist, an invalid month or day, or a year out of range, so
/// the first day of a month of a year in range always has a midnight.
#[verifier::external_body]
pub(crate) fn utc_midnight_ms(year: i32, month: u32, day: u32) -> (r: Option<i64>)
    ensures
        (-262143 <= year <= 262142 && 1 <= month <= 12 && day == 1) ==> r is Some,
        match r {
            Some(ms) => utc_midnight(year as int, month as int, day as int) == Some(ms as int)
                && -instant_bound() < ms < instant_bound(),
            None => utc_midnight(year as int, month as int, day as int) is None,
        },
{
    match chrono::NaiveDate::from_ymd_opt(year, month, day) {
        Some(date) => match date.and_hms_opt(0, 0, 0) {
            Some(at) => Some(chrono::Utc.from_utc_datetime(&at).timestamp_millis()),
            None => None,
        },
        None => None,
    }
}

/// `DateTime::from_timestamp_millis(ms)` formatted with "%Y-%m-%d %H:%M".
#[verifier::external_body]
pub(crate) fn utc_minute_stamp(ms: i64) -> (r: Option<String>)
    ensures
        match r {
            Some(s) => utc_minute_text(ms as int) == Some(s@),
            None => utc_minute_text(ms as int) is None,
        },
{
    match chrono::DateTime::from_timestamp_millis(ms) {
        Some(dt) => Some(dt.format("%Y-%m-%d %H:%M").to_string()),
        None => None,
    }
}

} // verus!
