//! Wall-clock times of a single day and spans of whole seconds.
//!
//! The arithmetic on times of day is chrono's; this module holds the values
//! as plain integers, states what the arithmetic yields as spec functions on
//! [`ClockTime`], and calls chrono for the result.
use chrono::Timelike;
use std::cmp::Ordering;
use vstd::prelude::*;

verus! {

/// Number of seconds in a day.
pub const SECONDS_PER_DAY: u32 = 86_400;

/// Number of nanoseconds in a second. A nanosecond part at or above this
/// value marks a leap second.
pub const NANOS_PER_SECOND: u32 = 1_000_000_000;

/// Largest number of whole seconds a [`Duration`] can hold, in either
/// direction.
pub const MAX_DURATION_SECONDS: i64 = 9_223_372_036_854_775;

/// The mathematical value of a [`TimeOfDay`]: whole seconds since midnight
/// and the nanoseconds that follow them.
pub struct ClockTime {
    pub secs: int,
    pub frac: int,
}

impl ClockTime {
    /// The values a time of day can take.
    pub open spec fn is_valid(self) -> bool {
        &&& 0 <= self.secs < SECONDS_PER_DAY
        &&& 0 <= self.frac < 2 * NANOS_PER_SECOND
    }

    /// Whether the time lies inside a leap second.
    pub open spec fn is_leap(self) -> bool {
        self.frac >= NANOS_PER_SECOND
    }

    /// Strictly earlier in the day.
    pub open spec fn lt(self, other: ClockTime) -> bool {
        self.secs < other.secs || (self.secs == other.secs && self.frac < other.frac)
    }

    /// Earlier in the day or the same time.
    pub open spec fn le(self, other: ClockTime) -> bool {
        self.lt(other) || self == other
    }

    /// The time of day `seconds` whole seconds after `self` (before it, for a
    /// negative count). The result wraps around midnight. A leap second stays
    /// as it is when nothing is added; otherwise it is left behind: it counts
    /// as the second before it when moving forward and as the second after it
    /// when moving backward.
    pub open spec fn plus(self, seconds: int) -> ClockTime {
        if self.is_leap() && seconds == 0 {
            self
        } else if self.is_leap() && seconds > 0 {
            ClockTime {
                secs: (self.secs + seconds) % (SECONDS_PER_DAY as int),
                frac: self.frac - NANOS_PER_SECOND,
            }
        } else if self.is_leap() {
            ClockTime {
                secs: (self.secs + 1 + seconds) % (SECONDS_PER_DAY as int),
                frac: self.frac - NANOS_PER_SECOND,
            }
        } else {
            ClockTime { secs: (self.secs + seconds) % (SECONDS_PER_DAY as int), frac: self.frac }
        }
    }
}

/// Adding no seconds leaves a time of day as it is.
pub proof fn lemma_plus_nothing(time: ClockTime)
    requires
        time.is_valid(),
    ensures
        time.plus(0) == time,
{
}

/// Adding seconds that do not reach midnight moves a time of day forward by
/// that many seconds, and not backward in the day.
pub proof fn lemma_plus_forward(time: ClockTime, seconds: int)
    requires
        time.is_valid(),
        0 <= seconds,
        time.secs + seconds < SECONDS_PER_DAY,
    ensures
        time.plus(seconds).is_valid(),
        time.plus(seconds).secs == time.secs + seconds,
        time.le(time.plus(seconds)),
        seconds > 0 ==> !time.plus(seconds).is_leap(),
{
}

/// Two steps forward in time come to the same time of day as one step of
/// their total.
pub proof fn lemma_plus_twice(time: ClockTime, first: int, second: int)
    requires
        time.is_valid(),
        0 <= first,
        0 <= second,
    ensures
        time.plus(first).plus(second) == time.plus(first + second),
{
}

/// A span of whole seconds, forward or backward in time.
#[derive(Clone, Copy, Debug, PartialEq, Eq, Structural)]
pub struct Duration {
    seconds: i64,
}

impl View for Duration {
    type V = int;

    closed spec fn view(&self) -> int {
        self.seconds as int
    }
}

impl Duration {
    /// Every span is within [`MAX_DURATION_SECONDS`] of zero.
    #[verifier::type_invariant]
    pub open spec fn in_range(self) -> bool {
        -MAX_DURATION_SECONDS <= self@ <= MAX_DURATION_SECONDS
    }

    /// A span of `seconds` seconds, if the count is within
    /// [`MAX_DURATION_SECONDS`] of zero.
    pub fn try_seconds(seconds: i64) -> (r: Option<Duration>)
        ensures
            r.is_some() <==> -MAX_DURATION_SECONDS <= seconds <= MAX_DURATION_SECONDS,
            r matches Some(d) ==> d@ == seconds,
    {
        if -MAX_DURATION_SECONDS <= seconds && seconds <= MAX_DURATION_SECONDS {
            Some(Duration { seconds })
        } else {
            None
        }
    }

    /// The number of seconds in the span.
    pub fn num_seconds(&self) -> (r: i64)
        ensures
            r == self@,
            -MAX_DURATION_SECONDS <= r <= MAX_DURATION_SECONDS,
    {
        proof {
            use_type_invariant(self);
        }
        self.seconds
    }
}

/// A point in a day, without date or time zone, exact to the nanosecond.
#[derive(Clone, Copy, Debug, PartialEq, Eq, Structural, Ord, Hash)]
pub struct TimeOfDay {
    secs: u32,
    frac: u32,
}

impl View for TimeOfDay {
    type V = ClockTime;

    closed spec fn view(&self) -> ClockTime {
        ClockTime { secs: self.secs as int, frac: self.frac as int }
    }
}

/// Two times of day with the same value are the same.
pub proof fn lemma_time_of_day_by_value(a: TimeOfDay, b: TimeOfDay)
    ensures
        (a@ == b@) == (a == b),
{
}

impl PartialOrd for TimeOfDay {
    /// Orders times by seconds since midnight, then by nanoseconds.
    fn partial_cmp(&self, other: &TimeOfDay) -> (r: Option<Ordering>) {
        if self.secs < other.secs || (self.secs == other.secs && self.frac < other.frac) {
            Some(Ordering::Less)
        } else if self.secs == other.secs && self.frac == other.frac {
            Some(Ordering::Equal)
        } else {
            Some(Ordering::Greater)
        }
    }
}

impl vstd::std_specs::cmp::PartialOrdSpecImpl for TimeOfDay {
    open spec fn obeys_partial_cmp_spec() -> bool {
        true
    }

    open spec fn partial_cmp_spec(&self, other: &TimeOfDay) -> Option<Ordering> {
        if self@.lt(other@) {
            Some(Ordering::Less)
        } else if self@ == other@ {
            Some(Ordering::Equal)
        } else {
            Some(Ordering::Greater)
        }
    }
}

/// The time of day `secs` seconds and `frac` nanoseconds after midnight plus
/// `seconds` whole seconds, computed by chrono's `NaiveTime + TimeDelta`.
///
/// The contract is taken from chrono and not proved here: the sum wraps
/// around midnight, and a leap second is kept where nothing is added and left
/// behind otherwise, which is what [`ClockTime::plus`] states. The bounds
/// are those within which chrono builds the time and the `TimeDelta`.
#[verifier::external_body]
fn chrono_add_seconds(secs: u32, frac: u32, seconds: i64) -> (r: (u32, u32))
    requires
        secs < SECONDS_PER_DAY,
        frac < 2 * NANOS_PER_SECOND,
        -MAX_DURATION_SECONDS <= seconds <= MAX_DURATION_SECONDS,
    ensures
        (ClockTime { secs: r.0 as int, frac: r.1 as int }) == (ClockTime {
            secs: secs as int,
            frac: frac as int,
        }).plus(seconds as int),
{
    let midnight = chrono::NaiveTime::from_num_seconds_from_midnight_opt(secs, 0).unwrap();
    let time = midnight.with_nanosecond(frac).unwrap();
    let sum = time + chrono::TimeDelta::seconds(seconds);
    (sum.num_seconds_from_midnight(), sum.nanosecond())
}

impl TimeOfDay {
    /// Every time of day has a value that [`ClockTime::is_valid`] admits.
    #[verifier::type_invariant]
    pub open spec fn in_range(self) -> bool {
        self@.is_valid()
    }

    /// The time `secs` seconds and `nano` nanoseconds after midnight. A
    /// nanosecond part of a second or more stands for a leap second. `None`
    /// when either number is out of range.
    pub fn from_num_seconds_from_midnight(secs: u32, nano: u32) -> (r: Option<TimeOfDay>)
        ensures
            r.is_some() <==> (ClockTime { secs: secs as int, frac: nano as int }).is_valid(),
            r matches Some(t) ==> t@ == (ClockTime { secs: secs as int, frac: nano as int }),
    {
        if secs < SECONDS_PER_DAY && nano < 2 * NANOS_PER_SECOND {
            Some(TimeOfDay { secs, frac: nano })
        } else {
            None
        }
    }

    /// The time `hour:min:sec`. `None` when a part is out of range.
    pub fn from_hms(hour: u32, min: u32, sec: u32) -> (r: Option<TimeOfDay>)
        ensures
            r.is_some() <==> hour < 24 && min < 60 && sec < 60,
            r matches Some(t) ==> t@ == (ClockTime {
                secs: hour * 3600 + min * 60 + sec,
                frac: 0,
            }),
    {
        if hour < 24 && min < 60 && sec < 60 {
            Some(TimeOfDay { secs: hour * 3600 + min * 60 + sec, frac: 0 })
        } else {
            None
        }
    }

    /// Whole seconds since midnight.
    pub fn num_seconds_from_midnight(&self) -> (r: u32)
        ensures
            r == self@.secs,
            r < SECONDS_PER_DAY,
    {
        proof {
            use_type_invariant(self);
        }
        self.secs
    }

    /// Nanoseconds since the last whole second; a second or more inside a
    /// leap second.
    pub fn nanosecond(&self) -> (r: u32)
        ensures
            r == self@.frac,
            r < 2 * NANOS_PER_SECOND,
    {
        proof {
            use_type_invariant(self);
        }
        self.frac
    }

    /// The time of day `duration` after `self`, wrapping around midnight.
    pub fn plus(&self, duration: Duration) -> (r: TimeOfDay)
        ensures
            r@ == self@.plus(duration@),
            r@.is_valid(),
    {
        proof {
            use_type_invariant(self);
            use_type_invariant(&duration);
        }
        let (secs, frac) = chrono_add_seconds(self.secs, self.frac, duration.seconds);
        TimeOfDay { secs, frac }
    }
}

} // verus!
