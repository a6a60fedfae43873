//! The calendar, as the `chrono` crate computes it.
//!
//! The executable functions of this module are trusted: each calls `chrono`,
//! and its contract states what the documentation and the source of `chrono`
//! say; none of that is proved. What takes `chrono` pages to compute (reading
//! a text under a format, writing one) is a function of the arguments alone
//! and has a name here in place of a definition. The count of days is
//! defined. Moments go in and come out as plain numbers.

use crate::instant::Instant;
use chrono::{DateTime, Datelike, NaiveDate, NaiveDateTime, NaiveTime, Timelike};
use std::fmt::Write;
use vstd::prelude::*;

verus! {

/// The first year of the calendar.
pub const FIRST_YEAR: i32 = -262143;

/// The last year of the calendar.
pub const LAST_YEAR: i32 = 262142;

/// The Gregorian rule for leap years, carried back before its introduction.
pub open spec fn is_leap_year(year: int) -> bool {
    year % 4 == 0 && (year % 100 != 0 || year % 400 == 0)
}

/// The number of days of a month.
pub open spec fn days_in_month(year: int, month: int) -> int {
    if month == 2 {
        if is_leap_year(year) {
            29
        } else {
            28
        }
    } else if month == 4 || month == 6 || month == 9 || month == 11 {
        30
    } else {
        31
    }
}

/// The day exists in the calendar.
pub open spec fn is_calendar_date(year: int, month: int, day: int) -> bool {
    &&& FIRST_YEAR <= year <= LAST_YEAR
    &&& 1 <= month <= 12
    &&& 1 <= day <= days_in_month(year, month)
}

/// The time of day exists: no hour 24, no minute or second 60.
pub open spec fn is_time_of_day(hour: int, minute: int, second: int) -> bool {
    0 <= hour < 24 && 0 <= minute < 60 && 0 <= second < 60
}

/// The day and the time of day both exist.
pub open spec fn is_civil(
    year: int,
    month: int,
    day: int,
    hour: int,
    minute: int,
    second: int,
) -> bool {
    is_calendar_date(year, month, day) && is_time_of_day(hour, minute, second)
}

/// The leap years among the years before `year`, counted from the year 1
/// (for a year before that, less those from `year` up to the year 1).
pub open spec fn leap_years_before(year: int) -> int {
    (year - 1) / 4 - (year - 1) / 100 + (year - 1) / 400
}

/// The days from January 1, 1970 to January 1 of `year`.
pub open spec fn days_before_year(year: int) -> int {
    365 * (year - 1970) + leap_years_before(year) - leap_years_before(1970)
}

/// The days from January 1 of `year` to the first day of `month`.
pub open spec fn days_before_month(year: int, month: int) -> int {
    let days = if month <= 1 {
        0int
    } else if month == 2 {
        31
    } else if month == 3 {
        59
    } else if month == 4 {
        90
    } else if month == 5 {
        120
    } else if month == 6 {
        151
    } else if month == 7 {
        181
    } else if month == 8 {
        212
    } else if month == 9 {
        243
    } else if month == 10 {
        273
    } else if month == 11 {
        304
    } else {
        334
    };
    if month > 2 && is_leap_year(year) {
        days + 1
    } else {
        days
    }
}

/// The seconds from midnight before January 1, 1970 to the given second of
/// the given day, every day counted as 86,400 seconds.
pub open spec fn civil_seconds(
    year: int,
    month: int,
    day: int,
    hour: int,
    minute: int,
    second: int,
) -> int {
    (days_before_year(year) + days_before_month(year, month) + day - 1) * 86400 + hour * 3600
        + minute * 60 + second
}

/// The second at which `year` starts.
pub open spec fn year_start(year: int) -> int {
    days_before_year(year) * 86400
}

/// The given second lies in `year`.
pub open spec fn is_year_of(year: int, seconds: int) -> bool {
    year_start(year) <= seconds < year_start(year + 1)
}

/// The calendar year in which the given second lies.
pub open spec fn calendar_year(seconds: int) -> int {
    choose|year: int| is_year_of(year, seconds)
}

/// A year has 365 days, a leap year 366.
pub proof fn lemma_length_of_year(year: int)
    ensures
        days_before_year(year + 1) - days_before_year(year) == if is_leap_year(year) {
            366int
        } else {
            365
        },
{
    assert(year / 4 - (year - 1) / 4 == if year % 4 == 0 {
        1int
    } else {
        0
    });
    assert(year / 100 - (year - 1) / 100 == if year % 100 == 0 {
        1int
    } else {
        0
    });
    assert(year / 400 - (year - 1) / 400 == if year % 400 == 0 {
        1int
    } else {
        0
    });
    assert(year % 100 == 0 ==> year % 4 == 0);
    assert(year % 400 == 0 ==> year % 100 == 0);
}

/// The months of a year follow one another without a gap, and fill the year.
pub proof fn lemma_months_fill_the_year(year: int, month: int)
    requires
        1 <= month <= 12,
    ensures
        days_before_month(year, 1) == 0,
        month < 12 ==> days_before_month(year, month + 1) == days_before_month(year, month)
            + days_in_month(year, month),
        days_before_year(year) + days_before_month(year, 12) + days_in_month(year, 12)
            == days_before_year(year + 1),
{
    lemma_length_of_year(year);
}

/// A later year starts later.
pub proof fn lemma_years_in_order(earlier: int, later: int)
    requires
        earlier <= later,
    ensures
        days_before_year(later) - days_before_year(earlier) >= 365 * (later - earlier),
    decreases later - earlier,
{
    if earlier < later {
        lemma_years_in_order(earlier, later - 1);
        lemma_length_of_year(later - 1);
    }
}

/// A second lies in one year and no other.
pub proof fn lemma_year_is_one(year: int, seconds: int)
    requires
        is_year_of(year, seconds),
    ensures
        calendar_year(seconds) == year,
{
    let chosen = calendar_year(seconds);
    assert(is_year_of(chosen, seconds));
    if chosen < year {
        lemma_years_in_order(chosen + 1, year);
    } else if year < chosen {
        lemma_years_in_order(year + 1, chosen);
    }
}

/// The count of seconds starts with 1970, and the last second of a day is
/// 86,399 seconds after the first.
pub proof fn lemma_civil_seconds_of_a_day(year: int, month: int, day: int)
    ensures
        civil_seconds(1970, 1, 1, 0, 0, 0) == 0,
        civil_seconds(year, month, day, 23, 59, 59) == civil_seconds(year, month, day, 0, 0, 0)
            + 86399,
        civil_seconds(year, month, day, 0, 0, 0) % 86400 == 0,
{
}

/// The moment at which the given second of the given day starts, where both
/// exist.
pub open spec fn civil(
    year: int,
    month: int,
    day: int,
    hour: int,
    minute: int,
    second: int,
) -> Option<Instant> {
    if is_civil(year, month, day, hour, minute, second) {
        Some(
            Instant {
                seconds: civil_seconds(year, month, day, hour, minute, second) as i64,
                nanos: 0,
            },
        )
    } else {
        None
    }
}

/// The moment that `NaiveDateTime::parse_from_str` reads from `text` under the
/// strftime-like `format`, or `None` where it reports an error.
pub uninterp spec fn parsed_datetime(text: Seq<char>, format: Seq<char>) -> Option<Instant>;

/// The year, month and day that `NaiveDate::parse_from_str` reads from `text`
/// under `format`, or `None` where it reports an error.
pub uninterp spec fn parsed_date(text: Seq<char>, format: Seq<char>) -> Option<(int, int, int)>;

/// The time of day that `NaiveTime::parse_from_str` reads from `text` under
/// `format`, as seconds since midnight and nanoseconds into the second, or
/// `None` where it reports an error.
pub uninterp spec fn parsed_time_of_day(text: Seq<char>, format: Seq<char>) -> Option<(u32, u32)>;

/// The text that `chrono` writes for a moment under `format`, or `None` where
/// the calendar has no name for the moment or the format cannot be written.
pub uninterp spec fn formatted(seconds: int, nanos: int, format: Seq<char>) -> Option<Seq<char>>;

/// Calls `NaiveDate::from_ymd_opt` and, on that date, `NaiveDate::and_hms_opt`;
/// the result is taken as seconds and nanoseconds (`DateTime::timestamp`,
/// `DateTime::timestamp_subsec_nanos`).
///
/// Claimed of them: the first gives a date exactly for the days that exist in
/// the proleptic Gregorian calendar from `FIRST_YEAR` to `LAST_YEAR`, the
/// second a time exactly for hours below 24 and minutes and seconds below 60,
/// with no fraction of a second; and the seconds of the result count the
/// days of that calendar from January 1, 1970, at 86,400 seconds a day.
#[verifier::external_body]
pub(crate) fn civil_instant(
    year: i32,
    month: u32,
    day: u32,
    hour: u32,
    minute: u32,
    second: u32,
) -> (r: Option<Instant>)
    ensures
        r is Some <==> is_civil(year as int, month as int, day as int, hour as int, minute as int, second as int),
        r matches Some(at) ==> at.nanos == 0,
        r matches Some(at) ==> at.seconds == civil_seconds(year as int, month as int, day as int, hour as int, minute as int, second as int),
{
    let civil = NaiveDate::from_ymd_opt(year, month, day)?.and_hms_opt(hour, minute, second)?;
    Some(Instant { seconds: civil.and_utc().timestamp(), nanos: civil.and_utc().timestamp_subsec_nanos() })
}

/// Calls `NaiveDateTime::parse_from_str`; the result is taken as seconds and
/// nanoseconds (`DateTime::timestamp`, `DateTime::timestamp_subsec_nanos`).
///
/// Claimed of it: only that the result depends on the text and the format
/// alone. An error of any kind is `None`.
#[verifier::external_body]
pub(crate) fn parse_datetime(text: &str, format: &str) -> (r: Option<Instant>)
    ensures
        r == parsed_datetime(text@, format@),
{
    let parsed = NaiveDateTime::parse_from_str(text, format).ok()?.and_utc();
    Some(Instant { seconds: parsed.timestamp(), nanos: parsed.timestamp_subsec_nanos() })
}

/// Calls `NaiveDate::parse_from_str`; the result is taken as year, month and
/// day (`Datelike`).
///
/// Claimed of it: only that the result depends on the text and the format
/// alone. An error of any kind is `None`.
#[verifier::external_body]
pub(crate) fn parse_date(text: &str, format: &str) -> (r: Option<(i32, u32, u32)>)
    ensures
        r is Some <==> parsed_date(text@, format@) is Some,
        r matches Some(date) ==> parsed_date(text@, format@) == Some((date.0 as int, date.1 as int, date.2 as int)),
{
    let date = NaiveDate::parse_from_str(text, format).ok()?;
    Some((date.year(), date.month(), date.day()))
}

/// Calls `NaiveTime::parse_from_str`; the result is taken as seconds since
/// midnight and nanoseconds (`Timelike::num_seconds_from_midnight`,
/// `Timelike::nanosecond`).
///
/// Claimed of it: only that the result depends on the text and the format
/// alone. An error of any kind is `None`.
#[verifier::external_body]
pub(crate) fn parse_time_of_day(text: &str, format: &str) -> (r: Option<(u32, u32)>)
    ensures
        r == parsed_time_of_day(text@, format@),
{
    let time = NaiveTime::parse_from_str(text, format).ok()?;
    Some((time.num_seconds_from_midnight(), time.nanosecond()))
}

/// Calls `NaiveDateTime::format` on the moment, which `DateTime::from_timestamp`
/// turns into a date and a time of day first.
///
/// Claimed of them: the text depends on the moment and the format alone;
/// there is no date and time for a moment that is not `representable`; and a
/// representable moment can always be written under `%Y-%m-%d %H:%M:%S`. A
/// format that cannot be written gives `None`, not a panic.
#[verifier::external_body]
pub(crate) fn format_instant(at: Instant, format: &str) -> (r: Option<String>)
    ensures
        r is Some <==> formatted(at.seconds as int, at.nanos as int, format@) is Some,
        r matches Some(text) ==> formatted(at.seconds as int, at.nanos as int, format@) == Some(text@),
        r is Some ==> at.representable(),
        at.representable() && format@ == "%Y-%m-%d %H:%M:%S"@ ==> r is Some,
{
    let moment = DateTime::from_timestamp(at.seconds, at.nanos)?.naive_utc();
    let mut text = String::new();
    write!(text, "{}", moment.format(format)).ok()?;
    Some(text)
}

/// Calls `Datelike::year` on the moment, which `DateTime::from_timestamp`
/// turns into a date and a time of day first.
///
/// Claimed of them: there is a date and time exactly for a moment that is
/// `representable`; and the year is the one in which the second lies, the
/// years of the proleptic Gregorian calendar counted from January 1, 1970 at
/// 86,400 seconds a day.
#[verifier::external_body]
pub(crate) fn year_of(at: Instant) -> (r: Option<i32>)
    ensures
        r is Some <==> at.representable(),
        r matches Some(year) ==> is_year_of(year as int, at.seconds as int),
{
    Some(DateTime::from_timestamp(at.seconds, at.nanos)?.naive_utc().year())
}

} // verus!
