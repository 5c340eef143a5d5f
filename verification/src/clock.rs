//! Calendar arithmetic delegated to `chrono`.

use chrono::{DateTime, Datelike, NaiveDate, Timelike, Utc};
use vstd::prelude::*;

verus! {

/// Calendar fields of a UTC instant, as produced by `chrono`.
pub struct CivilTime {
    pub year: i32,
    /// 1..=12
    pub month: u32,
    /// 1..=31
    pub day: u32,
    /// Days since Sunday, 0..=6
    pub weekday: u32,
    /// 0..=23
    pub hour: u32,
    /// 0..=59
    pub minute: u32,
    /// 0..=59
    pub second: u32,
}

/// The calendar fields (year, month, day, weekday from Sunday, hour, minute,
/// second) that `chrono::DateTime::<Utc>::from_timestamp(secs, 0)` gives for a
/// Unix time, or `None` where chrono has no such instant.
pub uninterp spec fn utc_fields(secs: int) -> Option<(int, int, int, int, int, int, int)>;

/// The Unix time that `chrono` gives for a UTC calendar date and time of day
/// (`NaiveDate::from_ymd_opt` then `and_hms_opt`), or `None` where either
/// rejects its arguments.
pub uninterp spec fn utc_timestamp(
    year: int,
    month: int,
    day: int,
    hour: int,
    minute: int,
    second: int,
) -> Option<int>;

pub open spec fn civil_view(c: CivilTime) -> (int, int, int, int, int, int, int) {
    (
        c.year as int,
        c.month as int,
        c.day as int,
        c.weekday as int,
        c.hour as int,
        c.minute as int,
        c.second as int,
    )
}

/// Calls `chrono::DateTime::<Utc>::from_timestamp(secs, 0)` and reads the
/// calendar fields of the result with `Datelike` / `Timelike` /
/// `Weekday::num_days_from_sunday`. Claimed: the fields are `utc_fields(secs)`,
/// and lie in the ranges that chrono documents for those getters; and the
/// date and time of day of those fields lead back to `secs` (chrono's
/// `timestamp` inverts `from_timestamp`, as its documentation shows).
#[verifier::external_body]
pub(crate) fn civil_from_unix(secs: i64) -> (r: Option<CivilTime>)
    ensures
        match r {
            Some(c) => {
                &&& utc_fields(secs as int) == Some(civil_view(c))
                &&& 1 <= c.month <= 12
                &&& 1 <= c.day <= 31
                &&& c.weekday <= 6
                &&& c.hour <= 23
                &&& c.minute <= 59
                &&& c.second <= 59
                &&& utc_timestamp(
                    c.year as int,
                    c.month as int,
                    c.day as int,
                    c.hour as int,
                    c.minute as int,
                    c.second as int,
                ) == Some(secs as int)
            },
            None => utc_fields(secs as int) is None,
        },
{
    DateTime::<Utc>::from_timestamp(secs, 0).map(|dt| CivilTime {
        year: dt.year(),
        month: dt.month(),
        day: dt.day(),
        weekday: dt.weekday().num_days_from_sunday(),
        hour: dt.hour(),
        minute: dt.minute(),
        second: dt.second(),
    })
}

/// Calls `chrono::NaiveDate::from_ymd_opt(year, month, day)`, then
/// `and_hms_opt(hour, minute, second)`, then `and_utc().timestamp()`.
/// Claimed: the result is `utc_timestamp(..)` of the arguments, and chrono
/// documents that it exists only for a month in 1..=12, a day in 1..=31, an
/// hour below 24 and a minute and second below 60.
#[verifier::external_body]
pub(crate) fn unix_from_civil(year: i32, month: u32, day: u32, hour: u32, minute: u32, second: u32) -> (r:
    Option<i64>)
    ensures
        r matches Some(t) ==> utc_timestamp(
            year as int,
            month as int,
            day as int,
            hour as int,
            minute as int,
            second as int,
        ) == Some(t as int),
        r is None ==> utc_timestamp(
            year as int,
            month as int,
            day as int,
            hour as int,
            minute as int,
            second as int,
        ) is None,
        r is Some ==> 1 <= month <= 12 && 1 <= day <= 31 && hour < 24 && minute < 60 && second < 60,
{
    NaiveDate::from_ymd_opt(year, month, day).and_then(|d| d.and_hms_opt(hour, minute, second)).map(
        |t| t.and_utc().timestamp(),
    )
}

} // verus!
