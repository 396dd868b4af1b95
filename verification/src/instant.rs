//! A moment of wall-clock time together with the UTC offset it is shown in.

use crate::date::{
    day_number, lemma_day_number_injective, max_day_number, min_day_number, valid_ymd,
    CalendarDate, Ymd,
};
use chrono::{DateTime, Datelike, Timelike};
use vstd::prelude::*;

verus! {

/// Day number of 1970-01-01, the day Unix time counts from.
pub const UNIX_EPOCH_DAY: i64 = 719163;

/// Seconds in a day.
pub const SECONDS_PER_DAY: i64 = 86400;

/// What the system clock said: seconds since the Unix epoch, and the
/// offset of the system's local time from UTC at that moment, in seconds.
#[derive(Clone, Copy, Debug, PartialEq, Eq, Structural)]
pub struct ClockReading {
    pub utc_seconds: i64,
    pub local_offset_seconds: i32,
}

/// Seconds since the Unix epoch of a time of day on a date, both read
/// as UTC.
pub open spec fn civil_seconds(date: Ymd, hour: int, minute: int, second: int) -> int {
    (date.number() - UNIX_EPOCH_DAY) * SECONDS_PER_DAY + hour * 3600 + minute * 60 + second
}

/// Whether a count of seconds since the Unix epoch falls on a date that
/// exists.
pub open spec fn seconds_in_range(seconds: int) -> bool {
    min_day_number() <= seconds / (SECONDS_PER_DAY as int) + UNIX_EPOCH_DAY <= max_day_number()
}

/// An instant as plain numbers: the moment, the offset, and the local
/// date and time of day they give.
pub struct InstantModel {
    pub utc_seconds: int,
    pub offset_seconds: int,
    pub date: Ymd,
    pub hour: int,
    pub minute: int,
    pub second: int,
}

impl InstantModel {
    /// The local date and time are those of the moment at the offset.
    pub open spec fn wf(self) -> bool {
        &&& -SECONDS_PER_DAY < self.offset_seconds < SECONDS_PER_DAY
        &&& self.date.valid()
        &&& 0 <= self.hour < 24
        &&& 0 <= self.minute < 60
        &&& 0 <= self.second < 60
        &&& civil_seconds(self.date, self.hour, self.minute, self.second) == self.utc_seconds
            + self.offset_seconds
    }
}

/// Current wall-clock time with a fixed UTC offset.
#[derive(Clone, Copy, Debug, PartialEq, Eq, Structural)]
pub struct Instant {
    utc_seconds: i64,
    offset_seconds: i32,
    date: CalendarDate,
    hour: u32,
    minute: u32,
    second: u32,
}

impl View for Instant {
    type V = InstantModel;

    closed spec fn view(&self) -> InstantModel {
        InstantModel {
            utc_seconds: self.utc_seconds as int,
            offset_seconds: self.offset_seconds as int,
            date: self.date@,
            hour: self.hour as int,
            minute: self.minute as int,
            second: self.second as int,
        }
    }
}

/// `DateTime::from_timestamp` with no nanoseconds, read back through
/// `naive_utc`: the date and time of day of that many seconds since the
/// Unix epoch, or nothing where the day lies outside chrono's dates.
#[verifier::external_body]
fn naive_from_timestamp(seconds: i64) -> (r: Option<(i32, u32, u32, u32, u32, u32)>)
    ensures
        match r {
            Some((year, month, day, hour, minute, second)) => {
                &&& valid_ymd(year as int, month as int, day as int)
                &&& hour < 24
                &&& minute < 60
                &&& second < 60
                &&& civil_seconds(
                    Ymd { year: year as int, month: month as int, day: day as int },
                    hour as int,
                    minute as int,
                    second as int,
                ) == seconds
            },
            None => !seconds_in_range(seconds as int),
        },
{
    let t = DateTime::from_timestamp(seconds, 0)?.naive_utc();
    Some((t.year(), t.month(), t.day(), t.hour(), t.minute(), t.second()))
}

impl Instant {
    /// What every value satisfies.
    #[verifier::type_invariant]
    pub open spec fn is_instant(self) -> bool {
        self@.wf()
    }

    /// The instant `utc_seconds` after the Unix epoch, shown at
    /// `offset_seconds` east of UTC. Nothing where the offset is a day or
    /// more, or the local day lies outside the calendar.
    pub fn from_timestamp(utc_seconds: i64, offset_seconds: i32) -> (r: Option<Instant>)
        ensures
            r is Some <==> {
                &&& -SECONDS_PER_DAY < offset_seconds < SECONDS_PER_DAY
                &&& seconds_in_range(utc_seconds + offset_seconds)
            },
            r matches Some(instant) ==> {
                &&& instant@.wf()
                &&& instant@.utc_seconds == utc_seconds
                &&& instant@.offset_seconds == offset_seconds
            },
    {
        if offset_seconds <= -86400 || offset_seconds >= 86400 {
            return None;
        }
        let local: i64 = match utc_seconds.checked_add(offset_seconds as i64) {
            Some(sum) => sum,
            None => {
                proof {
                    lemma_far_seconds_out_of_range(utc_seconds + offset_seconds);
                }
                return None;
            },
        };
        match naive_from_timestamp(local) {
            Some((year, month, day, hour, minute, second)) => {
                proof {
                    lemma_civil_seconds_in_range(
                        Ymd { year: year as int, month: month as int, day: day as int },
                        hour as int,
                        minute as int,
                        second as int,
                    );
                }
                match CalendarDate::new(year, month, day) {
                    Some(date) => Some(
                        Instant { utc_seconds, offset_seconds, date, hour, minute, second },
                    ),
                    None => None,
                }
            },
            None => None,
        }
    }

    /// Seconds since the Unix epoch.
    pub fn utc_seconds(&self) -> (seconds: i64)
        ensures
            seconds == self@.utc_seconds,
            self@.wf(),
    {
        proof {
            use_type_invariant(self);
        }
        self.utc_seconds
    }

    /// Seconds that local time is ahead of UTC.
    pub fn offset_seconds(&self) -> (seconds: i32)
        ensures
            seconds == self@.offset_seconds,
            -SECONDS_PER_DAY < seconds < SECONDS_PER_DAY,
            self@.wf(),
    {
        proof {
            use_type_invariant(self);
        }
        self.offset_seconds
    }

    /// The local date.
    pub fn date(&self) -> (date: CalendarDate)
        ensures
            date@ == self@.date,
            date@.valid(),
            self@.wf(),
    {
        proof {
            use_type_invariant(self);
        }
        self.date
    }

    /// The local hour of the day.
    pub fn hour(&self) -> (hour: u32)
        ensures
            hour == self@.hour,
            hour < 24,
            self@.wf(),
    {
        proof {
            use_type_invariant(self);
        }
        self.hour
    }

    /// The local minute of the hour.
    pub fn minute(&self) -> (minute: u32)
        ensures
            minute == self@.minute,
            minute < 60,
            self@.wf(),
    {
        proof {
            use_type_invariant(self);
        }
        self.minute
    }

    /// The local second of the minute.
    pub fn second(&self) -> (second: u32)
        ensures
            second == self@.second,
            second < 60,
            self@.wf(),
    {
        proof {
            use_type_invariant(self);
        }
        self.second
    }
}

/// A time of day on a date that exists is a count of seconds in range.
pub proof fn lemma_civil_seconds_in_range(date: Ymd, hour: int, minute: int, second: int)
    requires
        date.valid(),
        0 <= hour < 24,
        0 <= minute < 60,
        0 <= second < 60,
    ensures
        seconds_in_range(civil_seconds(date, hour, minute, second)),
        civil_seconds(date, hour, minute, second) / (SECONDS_PER_DAY as int) == date.number()
            - UNIX_EPOCH_DAY,
        civil_seconds(date, hour, minute, second) % (SECONDS_PER_DAY as int) == hour * 3600
            + minute * 60 + second,
{
    crate::date::lemma_day_number_lower_bound(date.year, date.month, date.day);
    let days = date.number() - UNIX_EPOCH_DAY;
    let rest = hour * 3600 + minute * 60 + second;
    assert(0 <= rest < 86400);
    assert((days * 86400 + rest) / 86400 == days && (days * 86400 + rest) % 86400 == rest) by {
        vstd::arithmetic::div_mod::lemma_fundamental_div_mod_converse(
            days * 86400 + rest,
            86400,
            days,
            rest,
        );
    }
}

/// Counts of seconds that do not fit 64 bits lie outside the calendar.
proof fn lemma_far_seconds_out_of_range(seconds: int)
    requires
        seconds < i64::MIN || seconds > i64::MAX,
    ensures
        !seconds_in_range(seconds),
{
    crate::date::lemma_days_before_month(crate::date::MIN_YEAR as int, 1);
    crate::date::lemma_days_before_month(crate::date::MAX_YEAR as int, 12);
}

/// The moment and the offset fix the local date and time: two instants
/// that agree on those two agree on everything.
pub proof fn lemma_instant_determined(a: InstantModel, b: InstantModel)
    requires
        a.wf(),
        b.wf(),
        a.utc_seconds == b.utc_seconds,
        a.offset_seconds == b.offset_seconds,
    ensures
        a == b,
{
    lemma_civil_seconds_in_range(a.date, a.hour, a.minute, a.second);
    lemma_civil_seconds_in_range(b.date, b.hour, b.minute, b.second);
    lemma_day_number_injective(a.date, b.date);
    let ra = a.hour * 3600 + a.minute * 60 + a.second;
    let rb = b.hour * 3600 + b.minute * 60 + b.second;
    assert(ra == rb);
    assert(a.second == ra % 60 && b.second == rb % 60);
    assert(a.minute == (ra / 60) % 60 && b.minute == (rb / 60) % 60);
    assert(a.hour == ra / 3600 && b.hour == rb / 3600);
}

} // verus!
