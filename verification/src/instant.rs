//! Moments on the time line, as plain numbers.

use vstd::prelude::*;

verus! {

/// The first second that the calendar can name: midnight before
/// January 1 of the year -262143.
pub const FIRST_SECOND: i64 = -8_334_601_228_800;

/// The last second that the calendar can name: the end of December 31 of the
/// year 262142.
pub const LAST_SECOND: i64 = 8_210_266_876_799;

/// A moment without a time zone: whole seconds since midnight before
/// January 1, 1970, and the nanoseconds into that second. Within a leap
/// second `nanos` runs from 1,000,000,000 up, on a second that ends a minute.
#[derive(Clone, Copy, Debug, PartialEq, Eq, Structural)]
pub struct Instant {
    pub seconds: i64,
    pub nanos: u32,
}

impl Instant {
    /// The calendar has a date and a time of day for this moment.
    pub open spec fn representable(self) -> bool {
        &&& FIRST_SECOND <= self.seconds <= LAST_SECOND
        &&& (self.nanos < 1_000_000_000 || (self.nanos < 2_000_000_000 && self.seconds % 60
            == 59))
    }

    /// This moment is not later than `other`: its second is earlier, or the
    /// seconds are the same and its nanoseconds are no more.
    pub open spec fn at_or_before(self, other: Instant) -> bool {
        self.seconds < other.seconds || (self.seconds == other.seconds && self.nanos
            <= other.nanos)
    }

    /// This moment lies between `from` and `to`, both included.
    pub open spec fn within(self, from: Instant, to: Instant) -> bool {
        from.at_or_before(self) && self.at_or_before(to)
    }

    /// This moment lies within a leap second.
    pub open spec fn in_leap_second(self) -> bool {
        self.nanos >= 1_000_000_000
    }

    /// The second of the moment `seconds` seconds before this one. A step
    /// back out of a leap second starts at the end of that second.
    pub open spec fn earlier_second(self, seconds: int) -> int {
        if self.in_leap_second() && seconds > 0 {
            self.seconds + 1 - seconds
        } else {
            self.seconds - seconds
        }
    }

    /// The moment `seconds` seconds before this one (after it, for a negative
    /// count). The fraction of the second stays. A moment within a leap
    /// second stays where the count is nothing; else the leap second is left:
    /// the fraction is counted from its start, and a step back starts at its
    /// end.
    pub open spec fn earlier_by(self, seconds: int) -> Instant
        recommends
            i64::MIN <= self.earlier_second(seconds) <= i64::MAX,
    {
        if self.in_leap_second() && seconds != 0 {
            Instant {
                seconds: self.earlier_second(seconds) as i64,
                nanos: (self.nanos - 1_000_000_000) as u32,
            }
        } else {
            Instant { seconds: self.earlier_second(seconds) as i64, nanos: self.nanos }
        }
    }

    /// The second at which the day of this moment starts.
    pub open spec fn day_start(self) -> int {
        self.seconds - self.seconds % 86400
    }

    /// A whole second.
    pub fn from_seconds(seconds: i64) -> (at: Instant)
        ensures
            at == (Instant { seconds, nanos: 0 }),
    {
        Instant { seconds, nanos: 0 }
    }

    /// Whether the calendar has a date and a time of day for this moment.
    pub fn is_representable(&self) -> (b: bool)
        ensures
            b == self.representable(),
    {
        if !(FIRST_SECOND <= self.seconds && self.seconds <= LAST_SECOND) {
            return false;
        }
        // the second within its minute, counted from a minute that starts
        // before the first second
        let shifted: i64 = self.seconds - FIRST_SECOND;
        self.nanos < 1_000_000_000 || (self.nanos < 2_000_000_000 && shifted % 60 == 59)
    }

    /// Whether this moment is not later than `other`.
    pub fn is_at_or_before(&self, other: &Instant) -> (b: bool)
        ensures
            b == self.at_or_before(*other),
    {
        self.seconds < other.seconds || (self.seconds == other.seconds && self.nanos
            <= other.nanos)
    }

    /// Whether this moment lies between `from` and `to`, both included.
    pub fn is_within(&self, from: &Instant, to: &Instant) -> (b: bool)
        ensures
            b == self.within(*from, *to),
    {
        from.is_at_or_before(self) && self.is_at_or_before(to)
    }

    /// The moment `seconds` seconds before this one.
    pub fn minus_seconds(&self, seconds: i64) -> (at: Instant)
        requires
            i64::MIN <= self.earlier_second(seconds as int) <= i64::MAX,
        ensures
            at == self.earlier_by(seconds as int),
    {
        if self.nanos >= 1_000_000_000 && seconds > 0 {
            Instant { seconds: self.seconds - (seconds - 1), nanos: self.nanos - 1_000_000_000 }
        } else if self.nanos >= 1_000_000_000 && seconds < 0 {
            Instant { seconds: self.seconds - seconds, nanos: self.nanos - 1_000_000_000 }
        } else {
            Instant { seconds: self.seconds - seconds, nanos: self.nanos }
        }
    }

    /// The second at which the day of this moment starts.
    pub fn start_of_day(&self) -> (second: i64)
        requires
            self.representable(),
        ensures
            second == self.day_start(),
    {
        // counted from the first second, which starts a day
        let shifted: i64 = self.seconds - FIRST_SECOND;
        self.seconds - shifted % 86400
    }
}

/// The order of moments is total and transitive.
pub proof fn lemma_order_of_instants(a: Instant, b: Instant, c: Instant)
    ensures
        a.at_or_before(a),
        a.at_or_before(b) || b.at_or_before(a),
        a.at_or_before(b) && b.at_or_before(a) ==> a == b,
        a.at_or_before(b) && b.at_or_before(c) ==> a.at_or_before(c),
{
}

} // verus!
