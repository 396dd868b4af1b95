//! Named time zones of the IANA database, as `chrono-tz` knows them.

use crate::instant::{seconds_in_range, Instant, SECONDS_PER_DAY};
use chrono::{DateTime, Offset, TimeZone};
use chrono_tz::Tz;
use vstd::prelude::*;

verus! {

/// Whether `chrono-tz` has a time zone of this name.
pub uninterp spec fn tz_is_known(name: Seq<char>) -> bool;

/// Seconds that local time in the zone of this name is ahead of UTC at
/// the moment `utc_seconds` after the Unix epoch, as `chrono-tz` has it.
pub uninterp spec fn tz_offset_seconds(name: Seq<char>, utc_seconds: int) -> int;

/// `<Tz as FromStr>::from_str`: whether the name is that of a time zone in
/// the database compiled into `chrono-tz`.
#[verifier::external_body]
fn tz_parses(name: &str) -> (known: bool)
    ensures
        known == tz_is_known(name@),
{
    name.parse::<Tz>().is_ok()
}

/// `TimeZone::offset_from_utc_datetime` on a `Tz`: the zone's total offset
/// from UTC at a moment, which is always less than a day. Nothing where
/// the name is no zone's or the moment lies outside chrono's dates.
#[verifier::external_body]
fn tz_offset_at(name: &str, utc_seconds: i64) -> (r: Option<i32>)
    ensures
        match r {
            Some(offset) => {
                &&& tz_is_known(name@)
                &&& seconds_in_range(utc_seconds as int)
                &&& offset == tz_offset_seconds(name@, utc_seconds as int)
                &&& -SECONDS_PER_DAY < offset < SECONDS_PER_DAY
            },
            None => !(tz_is_known(name@) && seconds_in_range(utc_seconds as int)),
        },
{
    let zone = name.parse::<Tz>().ok()?;
    let moment = DateTime::from_timestamp(utc_seconds, 0)?;
    Some(zone.offset_from_utc_datetime(&moment.naive_utc()).fix().local_minus_utc())
}

/// The name of a time zone that exists.
#[derive(Debug)]
pub struct TimezoneName {
    name: String,
}

impl View for TimezoneName {
    type V = Seq<char>;

    closed spec fn view(&self) -> Seq<char> {
        self.name@
    }
}

/// Whether the zone's local time at a moment is a time the calendar has.
pub open spec fn zone_time_exists(name: Seq<char>, utc_seconds: int) -> bool {
    &&& tz_is_known(name)
    &&& seconds_in_range(utc_seconds)
    &&& seconds_in_range(utc_seconds + tz_offset_seconds(name, utc_seconds))
}

impl TimezoneName {
    /// What every value satisfies: the name is a zone's.
    #[verifier::type_invariant]
    pub open spec fn is_zone(self) -> bool {
        tz_is_known(self@)
    }

    /// The zone of this name, where there is one.
    pub fn parse(name: &str) -> (r: Option<TimezoneName>)
        ensures
            r is Some <==> tz_is_known(name@),
            r matches Some(zone) ==> zone@ == name@,
    {
        if tz_parses(name) {
            Some(TimezoneName { name: name.to_owned() })
        } else {
            None
        }
    }

    /// The name.
    pub fn as_str(&self) -> (name: &str)
        ensures
            name@ == self@,
            tz_is_known(self@),
    {
        proof {
            use_type_invariant(self);
        }
        self.name.as_str()
    }

    /// A copy of this name.
    pub fn duplicate(&self) -> (copy: TimezoneName)
        ensures
            copy@ == self@,
    {
        proof {
            use_type_invariant(self);
        }
        TimezoneName { name: self.name.as_str().to_owned() }
    }

    /// The moment `utc_seconds` after the Unix epoch as the zone's wall
    /// clock shows it. Nothing where that local time lies outside the
    /// calendar.
    pub fn instant_at(&self, utc_seconds: i64) -> (r: Option<Instant>)
        ensures
            r is Some <==> zone_time_exists(self@, utc_seconds as int),
            r matches Some(instant) ==> {
                &&& instant@.wf()
                &&& instant@.utc_seconds == utc_seconds
                &&& instant@.offset_seconds == tz_offset_seconds(self@, utc_seconds as int)
            },
    {
        proof {
            use_type_invariant(self);
        }
        match tz_offset_at(self.name.as_str(), utc_seconds) {
            Some(offset) => Instant::from_timestamp(utc_seconds, offset),
            None => None,
        }
    }
}

} // verus!
