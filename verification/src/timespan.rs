//! The time filter: what can be chosen, and the window it stands for.

use crate::calendar::{civil, civil_instant};
use crate::instant::Instant;
use crate::viewer::LogsApp;
use vstd::prelude::*;

verus! {

pub const SECONDS_PER_MINUTE: i64 = 60;

pub const SECONDS_PER_HOUR: i64 = 3600;

pub const SECONDS_PER_DAY: i64 = 86400;

/// The windows that are offered ready-made, each reaching back from now.
#[derive(Debug, Clone, Copy, PartialEq, Eq, Structural)]
pub enum PredefinedSpan {
    Last15Minutes,
    Last30Minutes,
    Last1Hour,
    Last6Hours,
    Last24Hours,
    Last3Days,
    Last1Week,
    Last1Month,
}

/// The unit of a relative window.
#[derive(Debug, Clone, Copy, PartialEq, Eq, Structural)]
pub enum TimeUnit {
    Minutes,
    Hours,
    Days,
}

/// How the time filter is set. The bounds of a custom window and the amount
/// and unit of a relative one are kept beside it.
#[derive(Debug, Clone, Copy, PartialEq, Eq, Structural)]
pub enum TimeSpanMode {
    Disabled,
    Predefined(PredefinedSpan),
    Custom,
    Relative,
}

impl PredefinedSpan {
    /// The name shown for the window.
    pub open spec fn name(self) -> Seq<char> {
        match self {
            PredefinedSpan::Last15Minutes => "Last 15 minutes"@,
            PredefinedSpan::Last30Minutes => "Last 30 minutes"@,
            PredefinedSpan::Last1Hour => "Last 1 hour"@,
            PredefinedSpan::Last6Hours => "Last 6 hours"@,
            PredefinedSpan::Last24Hours => "Last 24 hours"@,
            PredefinedSpan::Last3Days => "Last 3 days"@,
            PredefinedSpan::Last1Week => "Last 1 week"@,
            PredefinedSpan::Last1Month => "Last 1 month"@,
        }
    }

    /// The length of the window in seconds. A month counts as 30 days.
    pub open spec fn seconds(self) -> int {
        match self {
            PredefinedSpan::Last15Minutes => 900,
            PredefinedSpan::Last30Minutes => 1800,
            PredefinedSpan::Last1Hour => 3600,
            PredefinedSpan::Last6Hours => 21600,
            PredefinedSpan::Last24Hours => 86400,
            PredefinedSpan::Last3Days => 259200,
            PredefinedSpan::Last1Week => 604800,
            PredefinedSpan::Last1Month => 2592000,
        }
    }

    pub fn display_name(&self) -> (name: &'static str)
        ensures
            name@ == self.name(),
    {
        match self {
            PredefinedSpan::Last15Minutes => "Last 15 minutes",
            PredefinedSpan::Last30Minutes => "Last 30 minutes",
            PredefinedSpan::Last1Hour => "Last 1 hour",
            PredefinedSpan::Last6Hours => "Last 6 hours",
            PredefinedSpan::Last24Hours => "Last 24 hours",
            PredefinedSpan::Last3Days => "Last 3 days",
            PredefinedSpan::Last1Week => "Last 1 week",
            PredefinedSpan::Last1Month => "Last 1 month",
        }
    }

    /// The length of the window, in seconds.
    pub fn to_duration(&self) -> (seconds: i64)
        ensures
            seconds == self.seconds(),
    {
        match self {
            PredefinedSpan::Last15Minutes => 15 * SECONDS_PER_MINUTE,
            PredefinedSpan::Last30Minutes => 30 * SECONDS_PER_MINUTE,
            PredefinedSpan::Last1Hour => SECONDS_PER_HOUR,
            PredefinedSpan::Last6Hours => 6 * SECONDS_PER_HOUR,
            PredefinedSpan::Last24Hours => SECONDS_PER_DAY,
            PredefinedSpan::Last3Days => 3 * SECONDS_PER_DAY,
            PredefinedSpan::Last1Week => 7 * SECONDS_PER_DAY,
            PredefinedSpan::Last1Month => 30 * SECONDS_PER_DAY,
        }
    }
}

impl TimeUnit {
    /// The name shown for the unit.
    pub open spec fn name(self) -> Seq<char> {
        match self {
            TimeUnit::Minutes => "minutes"@,
            TimeUnit::Hours => "hours"@,
            TimeUnit::Days => "days"@,
        }
    }

    /// The seconds in one unit.
    pub open spec fn seconds(self) -> int {
        match self {
            TimeUnit::Minutes => 60,
            TimeUnit::Hours => 3600,
            TimeUnit::Days => 86400,
        }
    }

    pub fn display_name(&self) -> (name: &'static str)
        ensures
            name@ == self.name(),
    {
        match self {
            TimeUnit::Minutes => "minutes",
            TimeUnit::Hours => "hours",
            TimeUnit::Days => "days",
        }
    }

    /// The length of `amount` units, in seconds.
    pub fn to_duration(&self, amount: i64) -> (seconds: i64)
        requires
            i64::MIN <= amount * self.seconds() <= i64::MAX,
        ensures
            seconds == amount * self.seconds(),
    {
        match self {
            TimeUnit::Minutes => amount * SECONDS_PER_MINUTE,
            TimeUnit::Hours => amount * SECONDS_PER_HOUR,
            TimeUnit::Days => amount * SECONDS_PER_DAY,
        }
    }
}

/// The window that a setting of the time filter stands for at the moment
/// `now`, as first and last moment, or `None` where nothing is filtered by
/// time: the filter is off, or a bound of the custom window is no date.
pub open spec fn window(
    mode: TimeSpanMode,
    custom_from: Option<Instant>,
    custom_to: Option<Instant>,
    relative_amount: int,
    relative_unit: TimeUnit,
    now: Instant,
) -> Option<(Instant, Instant)> {
    match mode {
        TimeSpanMode::Disabled => None,
        TimeSpanMode::Predefined(span) => Some((now.earlier_by(span.seconds()), now)),
        TimeSpanMode::Custom => match (custom_from, custom_to) {
            (Some(from), Some(to)) => Some((from, to)),
            _ => None,
        },
        TimeSpanMode::Relative => Some(
            (now.earlier_by(relative_amount * relative_unit.seconds()), now),
        ),
    }
}

/// Resolves a setting of the time filter into its window at the moment
/// `now`, which must be a moment of the calendar. `custom_from` and
/// `custom_to` are the bounds of the custom window where they are dates.
pub fn resolve_window(
    mode: TimeSpanMode,
    custom_from: Option<Instant>,
    custom_to: Option<Instant>,
    relative_amount: i32,
    relative_unit: TimeUnit,
    now: Instant,
) -> (range: Option<(Instant, Instant)>)
    requires
        now.representable(),
    ensures
        range == window(
            mode,
            custom_from,
            custom_to,
            relative_amount as int,
            relative_unit,
            now,
        ),
{
    match mode {
        TimeSpanMode::Disabled => None,
        TimeSpanMode::Predefined(span) => {
            let length: i64 = span.to_duration();
            Some((now.minus_seconds(length), now))
        },
        TimeSpanMode::Custom => match (custom_from, custom_to) {
            (Some(from), Some(to)) => Some((from, to)),
            _ => None,
        },
        TimeSpanMode::Relative => {
            let amount: i64 = relative_amount as i64;
            assert(-2147483648 * 86400 <= amount * relative_unit.seconds() <= 2147483648 * 86400)
                by (nonlinear_arith)
                requires
                    -2147483648 <= amount <= 2147483647,
                    1 <= relative_unit.seconds() <= 86400,
            ;
            let length: i64 = relative_unit.to_duration(amount);
            Some((now.minus_seconds(length), now))
        },
    }
}

impl LogsApp {
    /// Where the custom window starts: the first second of the chosen
    /// minute, or `None` where the fields name no date and time.
    pub open spec fn custom_from(&self) -> Option<Instant> {
        civil(
            self.custom_from_year as int,
            self.custom_from_month as int,
            self.custom_from_day as int,
            self.custom_from_hour as int,
            self.custom_from_minute as int,
            0,
        )
    }

    /// Where the custom window ends: the last second of the chosen minute, or
    /// `None` where the fields name no date and time.
    pub open spec fn custom_to(&self) -> Option<Instant> {
        civil(
            self.custom_to_year as int,
            self.custom_to_month as int,
            self.custom_to_day as int,
            self.custom_to_hour as int,
            self.custom_to_minute as int,
            59,
        )
    }

    /// The window of the time filter at the moment `now`.
    pub open spec fn time_range(&self, now: Instant) -> Option<(Instant, Instant)> {
        window(
            self.time_span_mode,
            self.custom_from(),
            self.custom_to(),
            self.relative_amount as int,
            self.relative_unit,
            now,
        )
    }

    /// Resolves the time filter into its window at the moment `now`, which
    /// must be a moment of the calendar: none where the filter is off; back
    /// from `now` by the length of a predefined or relative window; between
    /// the custom bounds, and none where one of them is no date and time.
    pub fn get_time_range(&self, now: Instant) -> (range: Option<(Instant, Instant)>)
        requires
            now.representable(),
        ensures
            range == self.time_range(now),
    {
        let (from, to) = match self.time_span_mode {
            TimeSpanMode::Custom => (
                civil_instant(
                    self.custom_from_year,
                    self.custom_from_month,
                    self.custom_from_day,
                    self.custom_from_hour,
                    self.custom_from_minute,
                    0,
                ),
                civil_instant(
                    self.custom_to_year,
                    self.custom_to_month,
                    self.custom_to_day,
                    self.custom_to_hour,
                    self.custom_to_minute,
                    59,
                ),
            ),
            _ => (None, None),
        };
        resolve_window(
            self.time_span_mode,
            from,
            to,
            self.relative_amount,
            self.relative_unit,
            now,
        )
    }
}

} // verus!
