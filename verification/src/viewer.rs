//! The state of the viewer: what was collected, how it is filtered, and
//! whether a collection is running.

use crate::buffer::{appended, appended_all, EntryView, LogBuffer, LogEntry};
use crate::calendar::{calendar_year, format_instant, formatted, lemma_year_is_one, year_of};
use crate::extract::extraction;
use crate::filter::{entry_views, visibility, visible_entries, FilterMode};
use crate::instant::Instant;
use crate::settings::Settings;
use crate::text::string_views;
use crate::timespan::{TimeSpanMode, TimeUnit};
use vstd::prelude::*;

verus! {

/// The viewer. The one who owns it reads the clock, runs the command and
/// hands the lines over; everything that is decided is decided here.
pub struct LogsApp {
    pub settings: Settings,
    pub logs: LogBuffer,
    /// The levels that are looked for; none selects every entry. They are a
    /// set kept as a list: `new` and `select_level` put no level in twice.
    pub selected_log_levels: Vec<String>,
    pub filter_mode: FilterMode,
    pub search_text: String,
    pub time_span_mode: TimeSpanMode,
    pub custom_from_year: i32,
    pub custom_from_month: u32,
    pub custom_from_day: u32,
    pub custom_from_hour: u32,
    pub custom_from_minute: u32,
    pub custom_to_year: i32,
    pub custom_to_month: u32,
    pub custom_to_day: u32,
    pub custom_to_hour: u32,
    pub custom_to_minute: u32,
    pub relative_amount: i32,
    pub relative_unit: TimeUnit,
    /// A collection has started and no entry has arrived yet.
    pub is_loading: bool,
    /// A collection is running.
    pub collecting: bool,
}

/// The levels that a new viewer looks for.
pub open spec fn default_levels() -> Seq<Seq<char>> {
    seq![
        "trace"@,
        "debug"@,
        "info"@,
        "warn"@,
        "warning"@,
        "error"@,
        "err"@,
        "fatal"@,
        "critical"@,
        "crit"@,
    ]
}

/// The levels of a new viewer are ten, and no two are the same.
pub proof fn lemma_default_levels_differ()
    ensures
        default_levels().len() == 10,
        default_levels().no_duplicates(),
{
    reveal_strlit("trace");
    reveal_strlit("debug");
    reveal_strlit("info");
    reveal_strlit("warn");
    reveal_strlit("warning");
    reveal_strlit("error");
    reveal_strlit("err");
    reveal_strlit("fatal");
    reveal_strlit("critical");
    reveal_strlit("crit");
    let levels = default_levels();
    assert forall|i: int, j: int| 0 <= i < levels.len() && 0 <= j < levels.len() && i != j implies levels[i]
        != levels[j] by {
        if levels[i].len() == levels[j].len() {
            assert(levels[i][0] != levels[j][0] || levels[i][1] != levels[j][1]);
        }
    }
}

impl LogsApp {
    /// The selected levels, each as its characters.
    pub open spec fn levels(&self) -> Seq<Seq<char>> {
        string_views(self.selected_log_levels@)
    }

    /// A viewer with the given settings and nothing collected. Every level is
    /// selected for inclusion, nothing is searched for, and the time filter is
    /// off; the custom window is preset to the whole of the given day, the
    /// relative one to one hour.
    pub fn new(settings: Settings, year: i32, month: u32, day: u32) -> (app: Self)
        ensures
            app.settings == settings,
            app.logs@ == Seq::<EntryView>::empty(),
            app.levels() == default_levels(),
            app.levels().no_duplicates(),
            app.filter_mode == FilterMode::IncludeSelected,
            app.search_text@ == Seq::<char>::empty(),
            app.time_span_mode == TimeSpanMode::Disabled,
            app.custom_from_year == year,
            app.custom_from_month == month,
            app.custom_from_day == day,
            app.custom_from_hour == 0,
            app.custom_from_minute == 0,
            app.custom_to_year == year,
            app.custom_to_month == month,
            app.custom_to_day == day,
            app.custom_to_hour == 23,
            app.custom_to_minute == 59,
            app.relative_amount == 1,
            app.relative_unit == TimeUnit::Hours,
            !app.is_loading,
            !app.collecting,
    {
        let mut selected: Vec<String> = Vec::new();
        selected.push("trace".to_owned());
        selected.push("debug".to_owned());
        selected.push("info".to_owned());
        selected.push("warn".to_owned());
        selected.push("warning".to_owned());
        selected.push("error".to_owned());
        selected.push("err".to_owned());
        selected.push("fatal".to_owned());
        selected.push("critical".to_owned());
        selected.push("crit".to_owned());
        let app = LogsApp {
            settings,
            logs: LogBuffer::new(),
            selected_log_levels: selected,
            filter_mode: FilterMode::IncludeSelected,
            search_text: String::new(),
            time_span_mode: TimeSpanMode::Disabled,
            custom_from_year: year,
            custom_from_month: month,
            custom_from_day: day,
            custom_from_hour: 0,
            custom_from_minute: 0,
            custom_to_year: year,
            custom_to_month: month,
            custom_to_day: day,
            custom_to_hour: 23,
            custom_to_minute: 59,
            relative_amount: 1,
            relative_unit: TimeUnit::Hours,
            is_loading: false,
            collecting: false,
        };
        proof {
            lemma_default_levels_differ();
        }
        app
    }
}

/// What the running of a collection turns on: whether one runs, whether its
/// first entry is still awaited, and what has been collected.
#[verifier::ext_equal]
pub struct Lifecycle {
    pub collecting: bool,
    pub is_loading: bool,
    pub entries: Seq<EntryView>,
}

impl Lifecycle {
    /// A start from here launches a producer.
    pub open spec fn launches(self) -> bool {
        !self.collecting
    }

    /// After a start: a running collection stays as it is; else one runs and
    /// its first entry is awaited.
    pub open spec fn started(self) -> Lifecycle {
        if self.collecting {
            self
        } else {
            Lifecycle { collecting: true, is_loading: true, entries: self.entries }
        }
    }

    /// After a stop: no collection runs. What was collected stays.
    pub open spec fn stopped(self) -> Lifecycle {
        Lifecycle { collecting: false, is_loading: self.is_loading, entries: self.entries }
    }

    /// After a restart: a stop, the entries dropped, and a start.
    pub open spec fn restarted(self) -> Lifecycle {
        Lifecycle { collecting: false, is_loading: false, entries: Seq::empty() }.started()
    }
}

/// A second start without a stop between changes nothing and launches
/// nothing: one collection runs, not two.
pub proof fn lemma_second_start_changes_nothing(state: Lifecycle)
    ensures
        state.started().collecting,
        !state.started().launches(),
        state.started().started() == state.started(),
{
}

/// A start after a stop launches a producer.
pub proof fn lemma_start_after_stop_launches(state: Lifecycle)
    ensures
        state.stopped().launches(),
        state.stopped().started().collecting,
        state.stopped().started().entries == state.entries,
{
}

/// Whatever was collected and whatever ran, after a restart nothing is held,
/// a collection runs, and its first entry is awaited.
pub proof fn lemma_restart_leaves_no_entries(state: Lifecycle)
    ensures
        state.restarted().entries == Seq::<EntryView>::empty(),
        state.restarted().collecting,
        state.restarted().is_loading,
{
}

/// The entry that a line becomes when it arrives at the moment `now`: the
/// timestamp that the line carries, or else `now`, in the canonical form, and
/// the line cleaned of its timestamp. The year and the day of `now` stand in
/// for what the line's timestamp leaves open.
pub open spec fn entry_of(line: Seq<char>, now: Instant) -> EntryView {
    let found = extraction(
        line,
        calendar_year(now.seconds as int) as int,
        now.day_start() as i64,
    );
    EntryView {
        timestamp: match found.0 {
            Some(stamp) => stamp,
            None => formatted(now.seconds as int, now.nanos as int, "%Y-%m-%d %H:%M:%S"@)->0,
        },
        content: found.1,
    }
}

/// The entries that lines become when they arrive at the moment `now`.
pub open spec fn entries_of(lines: Seq<Seq<char>>, now: Instant) -> Seq<EntryView> {
    lines.map_values(|line: Seq<char>| entry_of(line, now))
}

impl LogsApp {
    /// The time filter is set the same in `self` and `other`.
    pub open spec fn same_time_filter(&self, other: &LogsApp) -> bool {
        &&& self.time_span_mode == other.time_span_mode
        &&& self.custom_from_year == other.custom_from_year
        &&& self.custom_from_month == other.custom_from_month
        &&& self.custom_from_day == other.custom_from_day
        &&& self.custom_from_hour == other.custom_from_hour
        &&& self.custom_from_minute == other.custom_from_minute
        &&& self.custom_to_year == other.custom_to_year
        &&& self.custom_to_month == other.custom_to_month
        &&& self.custom_to_day == other.custom_to_day
        &&& self.custom_to_hour == other.custom_to_hour
        &&& self.custom_to_minute == other.custom_to_minute
        &&& self.relative_amount == other.relative_amount
        &&& self.relative_unit == other.relative_unit
    }

    /// The filter is set the same in `self` and `other`.
    pub open spec fn same_filter(&self, other: &LogsApp) -> bool {
        &&& self.selected_log_levels == other.selected_log_levels
        &&& self.filter_mode == other.filter_mode
        &&& self.search_text == other.search_text
        &&& self.same_time_filter(other)
    }

    /// Everything but the collected entries, the loading flag and the
    /// running flag is the same in `self` and `other`.
    pub open spec fn same_choices(&self, other: &LogsApp) -> bool {
        self.settings == other.settings && self.same_filter(other)
    }

    /// What the running of a collection turns on.
    pub open spec fn lifecycle(&self) -> Lifecycle {
        Lifecycle {
            collecting: self.collecting,
            is_loading: self.is_loading,
            entries: self.logs@,
        }
    }

    /// Starts a collection unless one runs. Gives the command for which the
    /// caller is to launch a producer on a fresh channel, or `None` where a
    /// collection runs already and nothing is to be done.
    pub fn start_log_collection(&mut self) -> (launch: Option<String>)
        ensures
            final(self).lifecycle() == old(self).lifecycle().started(),
            final(self).same_choices(old(self)),
            launch is Some <==> old(self).lifecycle().launches(),
            launch matches Some(command) ==> command@ == old(self).settings.log_command@,
    {
        if self.collecting {
            return None;
        }
        self.collecting = true;
        self.is_loading = true;
        Some(self.settings.log_command.clone())
    }

    /// Ends the collection. The caller lets go of the channel and of the
    /// producer without waiting for it.
    pub fn stop_log_collection(&mut self)
        ensures
            final(self).lifecycle() == old(self).lifecycle().stopped(),
            final(self).same_choices(old(self)),
    {
        self.collecting = false;
    }

    /// Ends the collection, drops every entry and starts anew. Gives the
    /// command for which the caller is to launch a producer.
    pub fn restart_log_collection(&mut self) -> (command: String)
        ensures
            final(self).lifecycle() == old(self).lifecycle().restarted(),
            final(self).same_choices(old(self)),
            command@ == old(self).settings.log_command@,
    {
        self.stop_log_collection();
        self.logs.clear();
        self.is_loading = false;
        self.start_log_collection().unwrap()
    }

    /// The number of entries held.
    pub fn entry_count(&self) -> (n: usize)
        ensures
            n == self.logs@.len(),
    {
        self.logs.len()
    }

    /// Drops every entry. The collection goes on.
    pub fn clear(&mut self)
        ensures
            final(self).logs@ == Seq::<EntryView>::empty(),
            final(self).same_choices(old(self)),
            final(self).is_loading == old(self).is_loading,
            final(self).collecting == old(self).collecting,
    {
        self.logs.clear();
    }

    /// Takes in one line under what was read off the moment `now`: its year,
    /// the start of its day, and its canonical form.
    fn take_in(
        &mut self,
        content: &str,
        year: i32,
        day_start: i64,
        arrival: &str,
        Ghost(now): Ghost<Instant>,
    )
        requires
            year == calendar_year(now.seconds as int),
            day_start == now.day_start(),
            formatted(now.seconds as int, now.nanos as int, "%Y-%m-%d %H:%M:%S"@) == Some(
                arrival@,
            ),
        ensures
            final(self).logs@ == appended(old(self).logs@, entry_of(content@, now)),
            !final(self).is_loading,
            final(self).collecting == old(self).collecting,
            final(self).same_choices(old(self)),
    {
        let (found, cleaned) = Self::extract_timestamp_from_log(content, year, day_start);
        let timestamp = match found {
            Some(stamp) => stamp,
            None => arrival.to_owned(),
        };
        self.logs.append(LogEntry { timestamp, content: cleaned });
        self.is_loading = false;
    }

    /// Takes in one line that arrived at the moment `now`, which must be a
    /// moment of the calendar. The line becomes the newest entry: under the
    /// timestamp that it carries, cleaned of it, or else under `now`, as it
    /// is. A date without a year is read as one of the year of `now`, a time
    /// of day without a date as one of the day of `now`. With the entry the
    /// wait for the first one is over.
    pub fn add_log_entry(&mut self, content: String, now: Instant)
        requires
            now.representable(),
        ensures
            final(self).logs@ == appended(old(self).logs@, entry_of(content@, now)),
            formatted(now.seconds as int, now.nanos as int, "%Y-%m-%d %H:%M:%S"@) is Some,
            !final(self).is_loading,
            final(self).collecting == old(self).collecting,
            final(self).same_choices(old(self)),
    {
        let year: i32 = year_of(now).unwrap();
        proof {
            lemma_year_is_one(year as int, now.seconds as int);
        }
        let arrival = format_instant(now, "%Y-%m-%d %H:%M:%S").unwrap();
        self.take_in(content.as_str(), year, now.start_of_day(), arrival.as_str(), Ghost(now));
    }

    /// Takes in the lines that have arrived since the last call, the oldest
    /// first, at the moment `now`, which must be a moment of the calendar.
    /// Each line becomes an entry as a single one does.
    pub fn drain(&mut self, lines: Vec<String>, now: Instant)
        requires
            now.representable(),
        ensures
            final(self).logs@ == appended_all(
                old(self).logs@,
                entries_of(string_views(lines@), now),
            ),
            formatted(now.seconds as int, now.nanos as int, "%Y-%m-%d %H:%M:%S"@) is Some,
            final(self).is_loading == (old(self).is_loading && lines@.len() == 0),
            final(self).collecting == old(self).collecting,
            final(self).same_choices(old(self)),
    {
        let year: i32 = year_of(now).unwrap();
        proof {
            lemma_year_is_one(year as int, now.seconds as int);
        }
        let day_start: i64 = now.start_of_day();
        let arrival = format_instant(now, "%Y-%m-%d %H:%M:%S").unwrap();
        let ghost arrived = entries_of(string_views(lines@), now);
        let mut i: usize = 0;
        while i < lines.len()
            invariant
                i <= lines.len(),
                year == calendar_year(now.seconds as int),
                day_start == now.day_start(),
                formatted(now.seconds as int, now.nanos as int, "%Y-%m-%d %H:%M:%S"@) == Some(
                    arrival@,
                ),
                arrived == entries_of(string_views(lines@), now),
                self.logs@ == appended_all(old(self).logs@, arrived.take(i as int)),
                self.is_loading == (old(self).is_loading && i == 0),
                self.collecting == old(self).collecting,
                self.same_choices(old(self)),
            decreases lines.len() - i,
        {
            assert(arrived.take(i + 1).drop_last() =~= arrived.take(i as int));
            self.take_in(lines[i].as_str(), year, day_start, arrival.as_str(), Ghost(now));
            i = i + 1;
        }
        assert(arrived.take(lines.len() as int) =~= arrived);
    }

    /// Selects one level and no other, or with `None` no level, which shows
    /// the entries of every level.
    pub fn select_level(&mut self, level: Option<String>)
        ensures
            final(self).levels() == match level {
                Some(name) => seq![name@],
                None => Seq::<Seq<char>>::empty(),
            },
            final(self).levels().no_duplicates(),
            final(self).settings == old(self).settings,
            final(self).lifecycle() == old(self).lifecycle(),
            final(self).filter_mode == old(self).filter_mode,
            final(self).search_text == old(self).search_text,
            final(self).same_time_filter(old(self)),
    {
        let mut selected: Vec<String> = Vec::new();
        match level {
            Some(name) => {
                selected.push(name);
            },
            None => {},
        }
        self.selected_log_levels = selected;
    }

    /// The entries that are shown at the moment `now`, oldest first: those
    /// that pass the tests on level, search text and time. `now` must be a
    /// moment of the calendar. Nothing is changed and nothing is kept from
    /// one call to the next.
    pub fn filtered_logs<'a>(&'a self, now: Instant) -> (shown: Vec<&'a LogEntry>)
        requires
            now.representable(),
        ensures
            entry_views(shown@) == self.logs@.filter(
                visibility(self.levels(), self.filter_mode, self.search_text@, self.time_range(now)),
            ),
    {
        let range = self.get_time_range(now);
        visible_entries(
            &self.logs,
            &self.selected_log_levels,
            self.filter_mode,
            self.search_text.as_str(),
            range,
        )
    }
}

} // verus!
