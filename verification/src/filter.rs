//! Which entries are shown.
//!
//! An entry is shown where three tests agree: on the level it names, on the
//! text that is searched for, and on the time window. Each test stands alone
//! as a function of plain values; the filter over a buffer puts them together.

use crate::buffer::{EntryView, LogBuffer, LogEntry};
use crate::calendar::{
    civil, civil_instant, civil_seconds, is_calendar_date, parse_date, parse_datetime, parsed_date,
    parsed_datetime,
};
use crate::instant::Instant;
use crate::text::{
    char_views, chars_of, contains_chars, lowercase, occurs_in, string_of, string_views, to_lower,
    trim_chars, trimmed,
};
use crate::timespan::{window, PredefinedSpan, TimeSpanMode, TimeUnit};
use crate::viewer::LogsApp;
use vstd::prelude::*;

verus! {

/// Whether the selected levels pick the entries to show or the ones to leave
/// out.
#[derive(Debug, Clone, Copy, PartialEq, Eq, Structural)]
pub enum FilterMode {
    IncludeSelected,
    ExcludeSelected,
}

/// One of `levels` is a part of `content`.
pub open spec fn names_a_level(levels: Seq<Seq<char>>, content: Seq<char>) -> bool {
    exists|i: int| 0 <= i < levels.len() && occurs_in(#[trigger] levels[i], content)
}

/// The test on levels, on text that is in lower case already: with no level
/// selected every entry passes; else one passes that names a selected level,
/// or under `ExcludeSelected` one that names none.
pub open spec fn level_visible(levels: Seq<Seq<char>>, mode: FilterMode, content: Seq<char>) -> bool {
    levels.len() == 0 || match mode {
        FilterMode::IncludeSelected => names_a_level(levels, content),
        FilterMode::ExcludeSelected => !names_a_level(levels, content),
    }
}

/// The test on the search text, on text that is in lower case already: with
/// nothing to search for every entry passes; else one passes that has the
/// text in its content or in its timestamp.
pub open spec fn search_visible(needle: Seq<char>, content: Seq<char>, timestamp: Seq<char>) -> bool {
    needle.len() == 0 || occurs_in(needle, content) || occurs_in(needle, timestamp)
}

/// The test on time: without a window every entry passes, and so does one
/// whose time is unknown; else one passes whose time lies in the window, its
/// two ends included.
pub open spec fn time_visible(range: Option<(Instant, Instant)>, at: Option<Instant>) -> bool {
    match (range, at) {
        (Some((from, to)), Some(at)) => at.within(from, to),
        _ => true,
    }
}

/// A window that reaches back from `now` by `length` seconds shows an entry
/// that is `age` seconds old exactly where `age` lies between nothing and
/// `length`.
pub proof fn lemma_window_back_from_now(now: Instant, length: int, age: int)
    requires
        i64::MIN <= now.seconds - length <= i64::MAX,
        i64::MIN <= now.seconds - age <= i64::MAX,
    ensures
        time_visible(Some((now.earlier_by(length), now)), Some(now.earlier_by(age))) <==> 0 <= age
            <= length,
{
}

/// Under a relative setting an entry that is `age` seconds old is shown
/// exactly where `age` lies between nothing and the amount of the unit.
pub proof fn lemma_relative_window_shows_recent(
    amount: i32,
    unit: TimeUnit,
    now: Instant,
    age: int,
    custom_from: Option<Instant>,
    custom_to: Option<Instant>,
)
    requires
        now.representable(),
        i64::MIN <= now.seconds - age <= i64::MAX,
    ensures
        time_visible(
            window(TimeSpanMode::Relative, custom_from, custom_to, amount as int, unit, now),
            Some(now.earlier_by(age)),
        ) <==> 0 <= age <= amount * unit.seconds(),
{
    match unit {
        TimeUnit::Minutes => {
            lemma_window_back_from_now(now, amount * 60, age);
        },
        TimeUnit::Hours => {
            lemma_window_back_from_now(now, amount * 3600, age);
        },
        TimeUnit::Days => {
            lemma_window_back_from_now(now, amount * 86400, age);
        },
    }
}

/// Under a predefined setting an entry that is `age` seconds old is shown
/// exactly where `age` lies between nothing and the length of the window.
pub proof fn lemma_predefined_window_shows_recent(
    span: PredefinedSpan,
    now: Instant,
    age: int,
    custom_from: Option<Instant>,
    custom_to: Option<Instant>,
    amount: i32,
    unit: TimeUnit,
)
    requires
        now.representable(),
        i64::MIN <= now.seconds - age <= i64::MAX,
    ensures
        time_visible(
            window(TimeSpanMode::Predefined(span), custom_from, custom_to, amount as int, unit, now),
            Some(now.earlier_by(age)),
        ) <==> 0 <= age <= span.seconds(),
{
    lemma_window_back_from_now(now, span.seconds(), age);
}

/// With the filter set to the last hour, an entry from half an hour ago is
/// shown and one from two hours ago is not.
pub proof fn lemma_last_hour_shows_half_an_hour_ago(
    now: Instant,
    custom_from: Option<Instant>,
    custom_to: Option<Instant>,
)
    requires
        now.representable(),
    ensures
        time_visible(
            window(TimeSpanMode::Relative, custom_from, custom_to, 1, TimeUnit::Hours, now),
            Some(now.earlier_by(1800)),
        ),
        !time_visible(
            window(TimeSpanMode::Relative, custom_from, custom_to, 1, TimeUnit::Hours, now),
            Some(now.earlier_by(7200)),
        ),
{
    lemma_relative_window_shows_recent(1, TimeUnit::Hours, now, 1800, custom_from, custom_to);
    lemma_relative_window_shows_recent(1, TimeUnit::Hours, now, 7200, custom_from, custom_to);
}

/// With the time filter off, and under a custom window with a bound that is
/// no date, no entry is hidden for its time. Nor is one whose time cannot be
/// read, whatever the window.
pub proof fn lemma_time_filter_is_permissive(
    range: Option<(Instant, Instant)>,
    at: Option<Instant>,
    custom_from: Option<Instant>,
    custom_to: Option<Instant>,
    amount: int,
    unit: TimeUnit,
    now: Instant,
)
    ensures
        time_visible(window(TimeSpanMode::Disabled, custom_from, custom_to, amount, unit, now), at),
        custom_from is None || custom_to is None ==> time_visible(
            window(TimeSpanMode::Custom, custom_from, custom_to, amount, unit, now),
            at,
        ),
        time_visible(range, None),
{
}

/// Whether one of `levels` is a part of `content`.
pub fn names_level(levels: &Vec<Vec<char>>, content: &Vec<char>) -> (b: bool)
    ensures
        b == names_a_level(char_views(levels@), content@),
{
    let mut i: usize = 0;
    while i < levels.len()
        invariant
            i <= levels.len(),
            forall|j: int| 0 <= j < i ==> !occurs_in(#[trigger] char_views(levels@)[j], content@),
        decreases levels.len() - i,
    {
        if contains_chars(content, &levels[i]) {
            assert(occurs_in(char_views(levels@)[i as int], content@));
            return true;
        }
        i = i + 1;
    }
    false
}

/// The test on levels.
pub fn level_matches(levels: &Vec<Vec<char>>, mode: FilterMode, content: &Vec<char>) -> (b: bool)
    ensures
        b == level_visible(char_views(levels@), mode, content@),
{
    if levels.len() == 0 {
        return true;
    }
    let named: bool = names_level(levels, content);
    match mode {
        FilterMode::IncludeSelected => named,
        FilterMode::ExcludeSelected => !named,
    }
}

/// The test on the search text.
pub fn search_matches(needle: &Vec<char>, content: &Vec<char>, timestamp: &Vec<char>) -> (b: bool)
    ensures
        b == search_visible(needle@, content@, timestamp@),
{
    if needle.len() == 0 {
        return true;
    }
    contains_chars(content, needle) || contains_chars(timestamp, needle)
}

/// The test on time.
pub fn time_matches(range: Option<(Instant, Instant)>, at: Option<Instant>) -> (b: bool)
    ensures
        b == time_visible(range, at),
{
    match (range, at) {
        (Some((from, to)), Some(at)) => at.is_within(&from, &to),
        _ => true,
    }
}

/// The moment at which the given day starts, where the day exists.
pub open spec fn start_of_day(date: (int, int, int)) -> Option<Instant> {
    civil(date.0, date.1, date.2, 0, 0, 0)
}

/// The moment that a text stands for. White space around it does not count.
/// It is read as date and time to the second, else to the minute, else to the
/// hour, else as a date alone, which stands for the start of that day.
pub open spec fn time_of_text(text: Seq<char>) -> Option<Instant> {
    let text = trimmed(text);
    if text.len() == 0 {
        None
    } else if parsed_datetime(text, "%Y-%m-%d %H:%M:%S"@) is Some {
        parsed_datetime(text, "%Y-%m-%d %H:%M:%S"@)
    } else if parsed_datetime(text, "%Y-%m-%d %H:%M"@) is Some {
        parsed_datetime(text, "%Y-%m-%d %H:%M"@)
    } else if parsed_datetime(text, "%Y-%m-%d %H"@) is Some {
        parsed_datetime(text, "%Y-%m-%d %H"@)
    } else {
        match parsed_date(text, "%Y-%m-%d"@) {
            Some(date) => start_of_day(date),
            None => None,
        }
    }
}

impl LogsApp {
    /// Reads the moment that a text stands for.
    pub fn parse_time_input(input: &str) -> (at: Option<Instant>)
        ensures
            at == time_of_text(input@),
    {
        let trimmed_chars = trim_chars(&chars_of(input));
        if trimmed_chars.len() == 0 {
            return None;
        }
        let trimmed_text = string_of(&trimmed_chars);
        let text: &str = trimmed_text.as_str();
        if let Some(at) = parse_datetime(text, "%Y-%m-%d %H:%M:%S") {
            return Some(at);
        }
        if let Some(at) = parse_datetime(text, "%Y-%m-%d %H:%M") {
            return Some(at);
        }
        if let Some(at) = parse_datetime(text, "%Y-%m-%d %H") {
            return Some(at);
        }
        match parse_date(text, "%Y-%m-%d") {
            Some((year, month, day)) => civil_instant(year, month, day, 0, 0, 0),
            None => None,
        }
    }
}

/// Whether an entry is shown: the three tests, each on the text in lower
/// case. `levels` and `search` are as the user gave them.
pub open spec fn entry_visible(
    levels: Seq<Seq<char>>,
    mode: FilterMode,
    search: Seq<char>,
    range: Option<(Instant, Instant)>,
    entry: EntryView,
) -> bool {
    &&& level_visible(levels.map_values(|level: Seq<char>| lowercase(level)), mode, lowercase(entry.content))
    &&& search.len() == 0 || search_visible(
        lowercase(search),
        lowercase(entry.content),
        lowercase(entry.timestamp),
    )
    &&& range is None || time_visible(range, time_of_text(entry.timestamp))
}

/// With a level selected, the two modes show opposite halves: what one shows
/// for its level the other hides.
pub proof fn lemma_modes_are_opposite(levels: Seq<Seq<char>>, content: Seq<char>)
    requires
        levels.len() > 0,
    ensures
        level_visible(levels, FilterMode::IncludeSelected, content) != level_visible(
            levels,
            FilterMode::ExcludeSelected,
            content,
        ),
{
}

/// A search text and a time window only ever hide entries: what is shown
/// with them is shown without them.
pub proof fn lemma_search_and_window_only_narrow(
    levels: Seq<Seq<char>>,
    mode: FilterMode,
    search: Seq<char>,
    range: Option<(Instant, Instant)>,
    entry: EntryView,
)
    requires
        entry_visible(levels, mode, search, range, entry),
    ensures
        entry_visible(levels, mode, Seq::empty(), range, entry),
        entry_visible(levels, mode, search, None, entry),
        entry_visible(levels, mode, Seq::empty(), None, entry),
{
}

/// A viewer whose time filter is set to the last hour passes, on time, an
/// entry from half an hour ago and not one from two hours ago.
pub proof fn lemma_viewer_set_to_the_last_hour(app: LogsApp, now: Instant)
    requires
        now.representable(),
        app.time_span_mode == TimeSpanMode::Relative,
        app.relative_amount == 1,
        app.relative_unit == TimeUnit::Hours,
    ensures
        time_visible(app.time_range(now), Some(now.earlier_by(1800))),
        !time_visible(app.time_range(now), Some(now.earlier_by(7200))),
{
    lemma_last_hour_shows_half_an_hour_ago(now, app.custom_from(), app.custom_to());
}

/// A viewer whose custom window is set to the whole of a day that exists
/// passes, on time, the whole seconds of that day and no others.
pub proof fn lemma_viewer_set_to_a_whole_day(app: LogsApp, now: Instant, at: Instant)
    requires
        app.time_span_mode == TimeSpanMode::Custom,
        is_calendar_date(
            app.custom_from_year as int,
            app.custom_from_month as int,
            app.custom_from_day as int,
        ),
        app.custom_to_year == app.custom_from_year,
        app.custom_to_month == app.custom_from_month,
        app.custom_to_day == app.custom_from_day,
        app.custom_from_hour == 0 && app.custom_from_minute == 0,
        app.custom_to_hour == 23 && app.custom_to_minute == 59,
        at.nanos == 0,
    ensures
        time_visible(app.time_range(now), Some(at)) <==> 0 <= at.seconds - civil_seconds(
            app.custom_from_year as int,
            app.custom_from_month as int,
            app.custom_from_day as int,
            0,
            0,
            0,
        ) < 86400,
{
}

/// The test that the filter applies to each entry.
pub open spec fn visibility(
    levels: Seq<Seq<char>>,
    mode: FilterMode,
    search: Seq<char>,
    range: Option<(Instant, Instant)>,
) -> spec_fn(EntryView) -> bool {
    |entry: EntryView| entry_visible(levels, mode, search, range, entry)
}

/// What each entry that `v` refers to holds.
pub open spec fn entry_views(v: Seq<&LogEntry>) -> Seq<EntryView> {
    v.map_values(|entry: &LogEntry| entry@)
}

/// Each level in lower case, as characters.
fn lowered_levels(levels: &Vec<String>) -> (lowered: Vec<Vec<char>>)
    ensures
        char_views(lowered@) == string_views(levels@).map_values(
            |level: Seq<char>| lowercase(level),
        ),
{
    let mut lowered: Vec<Vec<char>> = Vec::new();
    let mut i: usize = 0;
    while i < levels.len()
        invariant
            i <= levels.len(),
            char_views(lowered@) == string_views(levels@).take(i as int).map_values(
                |level: Seq<char>| lowercase(level),
            ),
        decreases levels.len() - i,
    {
        let lower = to_lower(levels[i].as_str());
        let ghost before = char_views(lowered@);
        lowered.push(chars_of(lower.as_str()));
        assert(string_views(levels@).take(i + 1).map_values(|level: Seq<char>| lowercase(level))
            =~= before.push(lowercase(levels@[i as int]@)));
        i = i + 1;
    }
    lowered
}

/// The three tests on one entry. `lowered` and `needle` are the levels and
/// the search text in lower case.
fn entry_matches(
    entry: &LogEntry,
    lowered: &Vec<Vec<char>>,
    mode: FilterMode,
    needle: &Vec<char>,
    range: Option<(Instant, Instant)>,
    Ghost(levels): Ghost<Seq<Seq<char>>>,
    Ghost(search): Ghost<Seq<char>>,
) -> (b: bool)
    requires
        char_views(lowered@) == levels.map_values(|level: Seq<char>| lowercase(level)),
        search.len() > 0 ==> needle@ == lowercase(search),
        search.len() == 0 ==> needle@.len() == 0,
    ensures
        b == entry_visible(levels, mode, search, range, entry@),
{
    let content = chars_of(to_lower(entry.content.as_str()).as_str());
    if !level_matches(lowered, mode, &content) {
        return false;
    }
    if needle.len() > 0 {
        if !contains_chars(&content, needle) {
            let timestamp = chars_of(to_lower(entry.timestamp.as_str()).as_str());
            if !contains_chars(&timestamp, needle) {
                return false;
            }
        }
    }
    match range {
        None => true,
        Some(_) => time_matches(range, LogsApp::parse_time_input(entry.timestamp.as_str())),
    }
}

/// The entries of `logs` that are shown, oldest first.
pub fn visible_entries<'a>(
    logs: &'a LogBuffer,
    levels: &Vec<String>,
    mode: FilterMode,
    search: &str,
    range: Option<(Instant, Instant)>,
) -> (shown: Vec<&'a LogEntry>)
    ensures
        entry_views(shown@) == logs@.filter(
            visibility(string_views(levels@), mode, search@, range),
        ),
{
    let ghost test = visibility(string_views(levels@), mode, search@, range);
    let lowered = lowered_levels(levels);
    let needle: Vec<char> = if search.is_empty() {
        Vec::new()
    } else {
        chars_of(to_lower(search).as_str())
    };
    let mut shown: Vec<&'a LogEntry> = Vec::new();
    let count: usize = logs.len();
    let mut i: usize = 0;
    while i < count
        invariant
            i <= count == logs@.len(),
            test == visibility(string_views(levels@), mode, search@, range),
            char_views(lowered@) == string_views(levels@).map_values(
                |level: Seq<char>| lowercase(level),
            ),
            search@.len() > 0 ==> needle@ == lowercase(search@),
            search@.len() == 0 ==> needle@.len() == 0,
            entry_views(shown@) == logs@.take(i as int).filter(test),
        decreases count - i,
    {
        let entry: &'a LogEntry = logs.get(i);
        let keep: bool = entry_matches(
            entry,
            &lowered,
            mode,
            &needle,
            range,
            Ghost(string_views(levels@)),
            Ghost(search@),
        );
        proof {
            logs@.take(i as int).lemma_filter_push(logs@[i as int], test);
            assert(logs@.take(i as int).push(logs@[i as int]) =~= logs@.take(i + 1));
        }
        if keep {
            shown.push(entry);
        }
        i = i + 1;
    }
    assert(logs@.take(count as int) =~= logs@);
    shown
}

} // verus!
