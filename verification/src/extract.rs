//! Finding the timestamp that a line of log output carries.
//!
//! A line is held against an ordered list of patterns, each with its way of
//! reading what it found. The first pattern that finds something which can be
//! read and written as a moment settles the result: the moment in the form
//! `YYYY-MM-DD HH:MM:SS`, and the line without what was found. What a find
//! leaves open is taken from the present: a date without a year gets the
//! current year, a time of day without a date the current day.

use crate::calendar::{
    format_instant, formatted, parse_datetime, parse_time_of_day, parsed_datetime,
    parsed_time_of_day,
};
use crate::instant::Instant;
use crate::pattern::{capture, captured};
use crate::text::{
    chars_of, decimal, decimal_chars, epoch_value, lemma_without_single_occurrence, occurs_at,
    parse_epoch_chars, remove_all, string_of, trim_chars, trimmed, without,
};
use crate::viewer::LogsApp;
use vstd::prelude::*;

verus! {

/// The number of patterns.
pub const PATTERN_COUNT: usize = 8;

/// The place of the pattern for date and time with a `T` between them, with
/// or without the zone letter `Z` at the end.
pub const ISO_PATTERN: usize = 0;

/// The place of the pattern for the system log's form, which has no year.
pub const SYSLOG_PATTERN: usize = 3;

/// The place of the pattern for a time of day with milliseconds.
pub const TIME_WITH_FRACTION_PATTERN: usize = 4;

/// The place of the pattern for a time of day.
pub const TIME_PATTERN: usize = 5;

/// The place of the pattern for a count of seconds.
pub const EPOCH_PATTERN: usize = 7;

/// The patterns, the most specific first. Each has one capture group, which
/// holds the timestamp.
pub open spec fn pattern_text(index: int) -> Seq<char> {
    if index == 0 {
        r"(\d{4}-\d{2}-\d{2}T\d{2}:\d{2}:\d{2}(?:\.\d{3})?Z?)"@
    } else if index == 1 {
        r"(\d{4}-\d{2}-\d{2}\s+\d{2}:\d{2}:\d{2}(?:\.\d{3})?)"@
    } else if index == 2 {
        r"(\d{4}-\d{2}-\d{2}\s+\d{2}:\d{2}:\d{2})"@
    } else if index == 3 {
        r"([A-Za-z]{3}\s+\d{1,2}\s+\d{2}:\d{2}:\d{2})"@
    } else if index == 4 {
        r"(\d{2}:\d{2}:\d{2}\.\d{3})"@
    } else if index == 5 {
        r"(\d{2}:\d{2}:\d{2})"@
    } else if index == 6 {
        r"(\d{2}/\d{2}/\d{4}\s+\d{2}:\d{2}:\d{2})"@
    } else {
        r"(\d{10})"@
    }
}

/// The format under which the find of each pattern is read. The first is for
/// a find that ends in the zone letter; one that does not is read under
/// `zoneless_format`. The system log's form is read with the current year put
/// before it. The two forms without a date are read as a time of day. A count
/// of seconds is not read under a format.
pub open spec fn pattern_format(index: int) -> Seq<char> {
    if index == 0 {
        "%Y-%m-%dT%H:%M:%S%.3fZ"@
    } else if index == 1 {
        "%Y-%m-%d %H:%M:%S%.3f"@
    } else if index == 2 {
        "%Y-%m-%d %H:%M:%S"@
    } else if index == 3 {
        "%Y %b %d %H:%M:%S"@
    } else if index == 4 {
        "%H:%M:%S%.3f"@
    } else if index == 5 {
        "%H:%M:%S"@
    } else if index == 6 {
        "%m/%d/%Y %H:%M:%S"@
    } else {
        ""@
    }
}

/// The format for date and time with a `T` between them and no zone letter.
pub open spec fn zoneless_format() -> Seq<char> {
    "%Y-%m-%dT%H:%M:%S%.3f"@
}

/// The pattern at `index` and its format.
pub fn pattern_at(index: usize) -> (entry: (&'static str, &'static str))
    requires
        index < PATTERN_COUNT,
    ensures
        entry.0@ == pattern_text(index as int),
        entry.1@ == pattern_format(index as int),
{
    if index == 0 {
        (r"(\d{4}-\d{2}-\d{2}T\d{2}:\d{2}:\d{2}(?:\.\d{3})?Z?)", "%Y-%m-%dT%H:%M:%S%.3fZ")
    } else if index == 1 {
        (r"(\d{4}-\d{2}-\d{2}\s+\d{2}:\d{2}:\d{2}(?:\.\d{3})?)", "%Y-%m-%d %H:%M:%S%.3f")
    } else if index == 2 {
        (r"(\d{4}-\d{2}-\d{2}\s+\d{2}:\d{2}:\d{2})", "%Y-%m-%d %H:%M:%S")
    } else if index == 3 {
        (r"([A-Za-z]{3}\s+\d{1,2}\s+\d{2}:\d{2}:\d{2})", "%Y %b %d %H:%M:%S")
    } else if index == 4 {
        (r"(\d{2}:\d{2}:\d{2}\.\d{3})", "%H:%M:%S%.3f")
    } else if index == 5 {
        (r"(\d{2}:\d{2}:\d{2})", "%H:%M:%S")
    } else if index == 6 {
        (r"(\d{2}/\d{2}/\d{4}\s+\d{2}:\d{2}:\d{2})", "%m/%d/%Y %H:%M:%S")
    } else {
        (r"(\d{10})", "")
    }
}

/// `found` with the year and a blank put before it.
pub open spec fn dated(year: int, found: Seq<char>) -> Seq<char> {
    decimal(year) + seq![' '] + found
}

/// The moment that a count of seconds stands for.
pub open spec fn epoch_instant(found: Seq<char>) -> Option<Instant> {
    match epoch_value(found) {
        Some(seconds) => Some(Instant { seconds: seconds as i64, nanos: 0 }),
        None => None,
    }
}

/// `found` ends in the zone letter `Z`.
pub open spec fn ends_in_zone_letter(found: Seq<char>) -> bool {
    found.len() > 0 && found.last() == 'Z'
}

/// The moment at the given time of day, in seconds since midnight and
/// nanoseconds, of the day that starts at the second `day_start`; `None`
/// where the second does not fit in 64 bits.
pub open spec fn on_day(day_start: i64, time: (u32, u32)) -> Option<Instant> {
    if day_start + time.0 <= i64::MAX {
        Some(Instant { seconds: (day_start + time.0) as i64, nanos: time.1 })
    } else {
        None
    }
}

/// The moment that the find of the pattern at `index` stands for, in the
/// year `year` and on the day that starts at the second `day_start`.
pub open spec fn stamp_of(index: int, found: Seq<char>, year: int, day_start: i64) -> Option<
    Instant,
> {
    if index == EPOCH_PATTERN {
        epoch_instant(found)
    } else if index == SYSLOG_PATTERN {
        parsed_datetime(dated(year, found), pattern_format(index))
    } else if index == ISO_PATTERN && !ends_in_zone_letter(found) {
        parsed_datetime(found, zoneless_format())
    } else if index == TIME_WITH_FRACTION_PATTERN || index == TIME_PATTERN {
        match parsed_time_of_day(found, pattern_format(index)) {
            Some(time) => on_day(day_start, time),
            None => None,
        }
    } else {
        parsed_datetime(found, pattern_format(index))
    }
}

/// `line` without every occurrence of `found` and without white space at its
/// ends.
pub open spec fn cleaned(line: Seq<char>, found: Seq<char>) -> Seq<char> {
    trimmed(without(line, found))
}

/// What the pattern at `index` makes of `line`: the timestamp in its
/// canonical form and the cleaned line, or `None` where the pattern finds
/// nothing, or what it finds is no moment.
pub open spec fn outcome(line: Seq<char>, year: int, day_start: i64, index: int) -> Option<(Seq<char>, Seq<char>)> {
    match captured(pattern_text(index), line, 1) {
        None => None,
        Some(found) => match stamp_of(index, found, year, day_start) {
            None => None,
            Some(at) => match formatted(at.seconds as int, at.nanos as int, "%Y-%m-%d %H:%M:%S"@) {
                None => None,
                Some(stamp) => Some((stamp, cleaned(line, found))),
            },
        },
    }
}

/// The result where the pattern at `index` settles it: its timestamp and its
/// cleaned line. (Where it has no outcome: no timestamp, and the line.)
pub open spec fn settled(line: Seq<char>, year: int, day_start: i64, index: int) -> (Option<Seq<char>>, Seq<char>) {
    match outcome(line, year, day_start, index) {
        Some((stamp, content)) => (Some(stamp), content),
        None => (None, line),
    }
}

/// What the patterns from `index` on make of `line`: the first that has an
/// outcome settles the result; where none has, there is no timestamp, and
/// the line stays as it is.
pub open spec fn extraction_from(line: Seq<char>, year: int, day_start: i64, index: int) -> (
    Option<Seq<char>>,
    Seq<char>,
)
    decreases PATTERN_COUNT - index,
{
    if index < 0 || index >= PATTERN_COUNT {
        (None, line)
    } else if outcome(line, year, day_start, index) is Some {
        settled(line, year, day_start, index)
    } else {
        extraction_from(line, year, day_start, index + 1)
    }
}

/// The timestamp of `line` and its content, in the year `year` and on the day
/// that starts at the second `day_start`.
pub open spec fn extraction(line: Seq<char>, year: int, day_start: i64) -> (Option<Seq<char>>, Seq<char>) {
    extraction_from(line, year, day_start, 0)
}

/// The pattern at `index` settles the result where it has an outcome and no
/// pattern from `start` up to it has one.
proof fn lemma_outcome_settles_from(
    line: Seq<char>,
    year: int,
    day_start: i64,
    start: int,
    index: int,
)
    requires
        0 <= start <= index < PATTERN_COUNT,
        outcome(line, year, day_start, index) is Some,
        forall|j: int| start <= j < index ==> outcome(line, year, day_start, j) is None,
    ensures
        extraction_from(line, year, day_start, start) == settled(line, year, day_start, index),
    decreases index - start,
{
    if start < index {
        lemma_outcome_settles_from(line, year, day_start, start + 1, index);
    }
}

/// The first pattern that has an outcome settles the result: its timestamp
/// and its cleaned line are what comes out, whatever later patterns would
/// make of the line.
pub proof fn lemma_first_outcome_wins(line: Seq<char>, year: int, day_start: i64, index: int)
    requires
        0 <= index < PATTERN_COUNT,
        outcome(line, year, day_start, index) is Some,
        forall|j: int| 0 <= j < index ==> outcome(line, year, day_start, j) is None,
    ensures
        extraction(line, year, day_start) == settled(line, year, day_start, index),
{
    lemma_outcome_settles_from(line, year, day_start, 0, index);
}

/// Where a pattern has an outcome, no later pattern has a say: the result
/// is the outcome of that pattern or of one before it.
pub proof fn lemma_earlier_pattern_wins(line: Seq<char>, year: int, day_start: i64, early: int)
    requires
        0 <= early < PATTERN_COUNT,
        outcome(line, year, day_start, early) is Some,
    ensures
        exists|k: int|
            0 <= k <= early && #[trigger] outcome(line, year, day_start, k) is Some && extraction(line, year, day_start)
                == settled(line, year, day_start, k),
    decreases early,
{
    if forall|j: int| 0 <= j < early ==> outcome(line, year, day_start, j) is None {
        lemma_first_outcome_wins(line, year, day_start, early);
    } else {
        let j = choose|j: int| 0 <= j < early && outcome(line, year, day_start, j) is Some;
        lemma_earlier_pattern_wins(line, year, day_start, j);
    }
}

/// Where no pattern has an outcome, there is no timestamp and the line stays
/// as it is.
pub proof fn lemma_no_outcome_keeps_line(line: Seq<char>, year: int, day_start: i64)
    requires
        forall|j: int| 0 <= j < PATTERN_COUNT ==> outcome(line, year, day_start, j) is None,
    ensures
        extraction(line, year, day_start) == (None::<Seq<char>>, line),
{
    reveal_with_fuel(extraction_from, 9);
}

/// A timestamp that stands in the line once is cut out, and the rest of the
/// line stays: what stood before it and after it, without white space at the
/// ends.
pub proof fn lemma_single_timestamp_is_cut_out(
    before: Seq<char>,
    found: Seq<char>,
    after: Seq<char>,
)
    requires
        found.len() > 0,
        forall|i: int| occurs_at(before + found + after, found, i) ==> i == before.len(),
    ensures
        cleaned(before + found + after, found) == trimmed(before + after),
{
    lemma_without_single_occurrence(before, found, after);
}

/// Puts the year and a blank before `found`.
pub fn with_year(year: i32, found: &str) -> (text: String)
    ensures
        text@ == dated(year as int, found@),
{
    let mut chars = decimal_chars(year);
    chars.push(' ');
    let mut rest = chars_of(found);
    chars.append(&mut rest);
    string_of(&chars)
}

/// Reads a count of seconds: decimal digits and nothing else, at least one,
/// and a number that fits in 64 bits with a sign.
pub fn read_epoch(found: &str) -> (at: Option<Instant>)
    ensures
        at == epoch_instant(found@),
{
    match parse_epoch_chars(&chars_of(found)) {
        Some(seconds) => Some(Instant::from_seconds(seconds)),
        None => None,
    }
}

/// The moment at a time of day, given as seconds since midnight and
/// nanoseconds, of the day that starts at the second `day_start`.
pub fn join_day(day_start: i64, time: (u32, u32)) -> (at: Option<Instant>)
    ensures
        at == on_day(day_start, time),
{
    let seconds_of_day: i64 = time.0 as i64;
    if day_start > i64::MAX - seconds_of_day {
        None
    } else {
        Some(Instant { seconds: day_start + seconds_of_day, nanos: time.1 })
    }
}

/// Whether `found` ends in the zone letter `Z`.
pub fn has_zone_letter(found: &str) -> (b: bool)
    ensures
        b == ends_in_zone_letter(found@),
{
    let chars = chars_of(found);
    chars.len() > 0 && chars[chars.len() - 1] == 'Z'
}

/// Takes every occurrence of `found` out of `line`, then the white space at
/// both ends.
pub fn strip_match(line: &str, found: &str) -> (content: String)
    ensures
        content@ == cleaned(line@, found@),
{
    let rest = remove_all(&chars_of(line), &chars_of(found));
    string_of(&trim_chars(&rest))
}

/// Tries the pattern at `index` on `line`, in the year `current_year` and on
/// the day that starts at the second `day_start`.
pub fn try_pattern(line: &str, current_year: i32, day_start: i64, index: usize) -> (r: Option<
    (String, String),
>)
    requires
        index < PATTERN_COUNT,
    ensures
        r is Some <==> outcome(line@, current_year as int, day_start, index as int) is Some,
        r matches Some(pair) ==> outcome(line@, current_year as int, day_start, index as int)
            == Some((pair.0@, pair.1@)),
{
    let (pattern, format) = pattern_at(index);
    let found = match capture(pattern, line, 1) {
        Some(found) => found,
        None => { return None; },
    };
    let read = if index == EPOCH_PATTERN {
        read_epoch(found.as_str())
    } else if index == SYSLOG_PATTERN {
        parse_datetime(with_year(current_year, found.as_str()).as_str(), format)
    } else if index == ISO_PATTERN && !has_zone_letter(found.as_str()) {
        parse_datetime(found.as_str(), "%Y-%m-%dT%H:%M:%S%.3f")
    } else if index == TIME_WITH_FRACTION_PATTERN || index == TIME_PATTERN {
        match parse_time_of_day(found.as_str(), format) {
            Some(time) => join_day(day_start, time),
            None => None,
        }
    } else {
        parse_datetime(found.as_str(), format)
    };
    let at = match read {
        Some(at) => at,
        None => { return None; },
    };
    match format_instant(at, "%Y-%m-%d %H:%M:%S") {
        Some(stamp) => Some((stamp, strip_match(line, found.as_str()))),
        None => None,
    }
}

impl LogsApp {
    /// Finds the timestamp that `content` carries. A date without a year is
    /// read as one of `current_year`, a time of day without a date as one of
    /// the day that starts at the second `day_start`. Gives the timestamp in
    /// its canonical form with the line cleaned of it, or no timestamp and
    /// the line as it is.
    pub fn extract_timestamp_from_log(content: &str, current_year: i32, day_start: i64) -> (r: (
        Option<String>,
        String,
    ))
        ensures
            r.0 is Some <==> extraction(content@, current_year as int, day_start).0 is Some,
            r.0 matches Some(stamp) ==> extraction(content@, current_year as int, day_start).0
                == Some(stamp@),
            r.1@ == extraction(content@, current_year as int, day_start).1,
    {
        let mut index: usize = 0;
        while index < PATTERN_COUNT
            invariant
                index <= PATTERN_COUNT,
                extraction_from(content@, current_year as int, day_start, index as int)
                    == extraction(content@, current_year as int, day_start),
            decreases PATTERN_COUNT - index,
        {
            match try_pattern(content, current_year, day_start, index) {
                Some((stamp, cleaned_line)) => {
                    return (Some(stamp), cleaned_line);
                },
                None => {},
            }
            index = index + 1;
        }
        (None, content.to_owned())
    }
}

} // verus!
