//! Rendering an instant as text: through a strftime template, or in the
//! way of a locale.
//!
//! Both renderers are outside this library. `chrono` expands templates,
//! ICU writes dates and times as a locale has them. What they return is a
//! function of what they are given, and stands here under a name.

use crate::config::TimeAppletConfig;
use crate::date::{CalendarDate, Ymd};
use crate::instant::{Instant, InstantModel};
use crate::localize::string_view;
use chrono::{FixedOffset, TimeZone};
use icu::calendar::Date;
use icu::datetime::fieldsets::builder::{DateFields, FieldSetBuilder};
use icu::datetime::input::{DateTime, Time};
use icu::datetime::options::{Length, TimePrecision};
use icu::datetime::{DateTimeFormatter, DateTimeFormatterPreferences};
use icu::locale::preferences::extensions::unicode::keywords::HourCycle;
use icu::locale::Locale;
use vstd::prelude::*;

verus! {

/// Which calendar fields a localized text shows.
#[derive(Clone, Copy, Debug, PartialEq, Eq, Structural)]
pub enum DatePart {
    /// No date.
    Omitted,
    /// Month and day of the month.
    MonthDay,
    /// Month, day of the month and weekday.
    MonthDayWeekday,
}

/// How precisely a localized text shows the time of day.
#[derive(Clone, Copy, Debug, PartialEq, Eq, Structural)]
pub enum TimePart {
    /// No time.
    Omitted,
    /// Hours and minutes.
    ToMinute,
    /// Hours, minutes and seconds.
    ToSecond,
}

/// The fields of a localized text of medium length, and its clock.
#[derive(Clone, Copy, Debug, PartialEq, Eq, Structural)]
pub struct FieldSet {
    pub date: DatePart,
    pub time: TimePart,
    /// Count the hours from 0 to 23 rather than twice from 1 to 12,
    /// whatever the locale would do.
    pub hour23: bool,
}

/// Which text of the calendar's header a date is written as.
#[derive(Clone, Copy, Debug, PartialEq, Eq, Structural)]
pub enum CalendarText {
    /// Year, month and day, written out.
    FullDate,
    /// The name of the weekday, written out.
    WeekdayName,
    /// The weekday in short, as it stands above a column of days.
    WeekdayCaption,
}

/// A local date and time of day, as the formatter of a locale takes
/// them.
#[derive(Clone, Copy, Debug, PartialEq, Eq, Structural)]
pub struct DateTimeInput {
    pub year: i32,
    pub month: u8,
    pub day: u8,
    pub hour: u8,
    pub minute: u8,
    pub second: u8,
}

/// What chrono's strftime formatter writes for a template and an instant
/// given by its seconds since the Unix epoch and its UTC offset. Nothing
/// where the template holds a specifier chrono does not know, or the
/// instant is none of chrono's.
pub uninterp spec fn strftime_text(template: Seq<char>, utc_seconds: int, offset_seconds: int)
    -> Option<Seq<char>>;

/// What ICU's date and time formatter writes in a locale, at medium
/// length, for a local date and time of day. `date` says whether the date
/// is shown, as month and day, and if so whether the weekday goes with it;
/// `time` says whether the time is shown, and if so whether to the second
/// rather than to the minute; `hour23` asks for hours from 0 to 23 rather
/// than twice from 1 to 12. Nothing where ICU does not read the locale,
/// neither date nor time is asked for, or ICU cannot hold the date.
pub uninterp spec fn localized_text(
    locale: Seq<char>,
    hour23: bool,
    date: Option<bool>,
    time: Option<bool>,
    year: int,
    month: int,
    day: int,
    hour: int,
    minute: int,
    second: int,
) -> Option<Seq<char>>;

/// What ICU's date formatter writes in a locale for a date: the weekday
/// alone where `weekday_only` is set, else year, month and day; at long
/// length where `long` is set, else at short length. Nothing where ICU
/// does not read the locale or cannot hold the date.
pub uninterp spec fn localized_date_text(
    locale: Seq<char>,
    weekday_only: bool,
    long: bool,
    year: int,
    month: int,
    day: int,
) -> Option<Seq<char>>;

/// `DateTime::format` on a `DateTime<FixedOffset>`, written out with
/// `DelayedFormat::write_to`, which fails on a specifier that chrono does
/// not know where `to_string` would panic.
#[verifier::external_body]
fn chrono_strftime(template: &str, utc_seconds: i64, offset_seconds: i32) -> (r: Option<String>)
    ensures
        string_view(r) == strftime_text(template@, utc_seconds as int, offset_seconds as int),
{
    let at = FixedOffset::east_opt(offset_seconds)?.timestamp_opt(utc_seconds, 0).single()?;
    let mut text = String::new();
    at.format(template).write_to(&mut text).ok()?;
    Some(text)
}

/// `DateTimeFormatter::try_new` with the preferences of a locale and a
/// field set of medium length from `FieldSetBuilder`, then
/// `DateTimeFormatter::format` on a Gregorian date and a time of day.
/// The arguments are those of `localized_text`.
#[verifier::external_body]
fn icu_format(
    locale: &str,
    hour23: bool,
    date: Option<bool>,
    time: Option<bool>,
    year: i32,
    month: u8,
    day: u8,
    hour: u8,
    minute: u8,
    second: u8,
) -> (r: Option<String>)
    ensures
        string_view(r) == localized_text(
            locale@,
            hour23,
            date,
            time,
            year as int,
            month as int,
            day as int,
            hour as int,
            minute as int,
            second as int,
        ),
{
    let mut builder = FieldSetBuilder::new();
    let mut prefs = DateTimeFormatterPreferences::from(Locale::try_from_str(locale).ok()?);
    prefs.hour_cycle = Some(if hour23 { HourCycle::H23 } else { HourCycle::H12 });
    builder.date_fields = date.map(|e| if e { DateFields::MDE } else { DateFields::MD });
    builder.time_precision = time.map(|s| if s { TimePrecision::Second } else { TimePrecision::Minute });
    let formatter = DateTimeFormatter::try_new(prefs, builder.build_composite_datetime().ok()?).ok()?;
    let date = Date::try_new_gregorian(year, month, day).ok()?;
    let time = Time::try_new(hour, minute, second, 0).ok()?;
    Some(formatter.format(&DateTime { date, time }).to_string())
}

/// `DateTimeFormatter::try_new` with the preferences of a locale and a
/// date field set from `FieldSetBuilder`, then `DateTimeFormatter::format`
/// on a Gregorian date. The arguments are those of `localized_date_text`.
#[verifier::external_body]
fn icu_format_date(locale: &str, weekday_only: bool, long: bool, year: i32, month: u8, day: u8)
    -> (r: Option<String>)
    ensures
        string_view(r) == localized_date_text(
            locale@,
            weekday_only,
            long,
            year as int,
            month as int,
            day as int,
        ),
{
    let prefs = DateTimeFormatterPreferences::from(Locale::try_from_str(locale).ok()?);
    let mut builder = FieldSetBuilder::new();
    builder.date_fields = Some(if weekday_only { DateFields::E } else { DateFields::YMD });
    builder.length = Some(if long { Length::Long } else { Length::Short });
    let formatter = DateTimeFormatter::try_new(prefs, builder.build_date().ok()?).ok()?;
    let date = Date::try_new_gregorian(year, month, day).ok()?;
    Some(formatter.format(&date).to_string())
}

/// The text of a template for an instant: nothing for the empty template
/// and for one that chrono cannot expand.
pub open spec fn template_text(template: Seq<char>, now: InstantModel) -> Option<Seq<char>> {
    if template.len() == 0 {
        None
    } else {
        strftime_text(template, now.utc_seconds, now.offset_seconds)
    }
}

impl DatePart {
    /// Whether the date is shown, and if so whether with its weekday.
    pub open spec fn shown(self) -> Option<bool> {
        match self {
            DatePart::Omitted => None,
            DatePart::MonthDay => Some(false),
            DatePart::MonthDayWeekday => Some(true),
        }
    }
}

impl TimePart {
    /// Whether the time is shown, and if so whether to the second.
    pub open spec fn shown(self) -> Option<bool> {
        match self {
            TimePart::Omitted => None,
            TimePart::ToMinute => Some(false),
            TimePart::ToSecond => Some(true),
        }
    }
}

/// A date with the time of day of an instant, as the formatter takes
/// them.
pub open spec fn input_for(date: Ymd, now: InstantModel) -> DateTimeInput {
    DateTimeInput {
        year: date.year as i32,
        month: date.month as u8,
        day: date.day as u8,
        hour: now.hour as u8,
        minute: now.minute as u8,
        second: now.second as u8,
    }
}

/// The date and time of day of an instant, as the formatter takes them.
pub open spec fn input_of(now: InstantModel) -> DateTimeInput {
    input_for(now.date, now)
}

/// The text of a field set for a date and time in a locale.
pub open spec fn input_text(locale: Seq<char>, fields: FieldSet, input: DateTimeInput) -> Option<
    Seq<char>,
> {
    localized_text(
        locale,
        fields.hour23,
        fields.date.shown(),
        fields.time.shown(),
        input.year as int,
        input.month as int,
        input.day as int,
        input.hour as int,
        input.minute as int,
        input.second as int,
    )
}

/// The text of a field set for an instant in a locale.
pub open spec fn field_set_text(locale: Seq<char>, fields: FieldSet, now: InstantModel) -> Option<
    Seq<char>,
> {
    input_text(locale, fields, input_of(now))
}

impl CalendarText {
    /// Whether the text is the weekday alone.
    pub open spec fn weekday_only(self) -> bool {
        self != CalendarText::FullDate
    }

    /// Whether the text is written out at length.
    pub open spec fn long(self) -> bool {
        self != CalendarText::WeekdayCaption
    }
}

/// A text of the calendar's header for the date of an input, in a locale.
pub open spec fn calendar_text(locale: Seq<char>, text: CalendarText, input: DateTimeInput)
    -> Option<Seq<char>> {
    localized_date_text(
        locale,
        text.weekday_only(),
        text.long(),
        input.year as int,
        input.month as int,
        input.day as int,
    )
}

/// Format with strftime if the template is not empty, and give nothing
/// where the template cannot be expanded.
pub fn maybe_strftime(now: &Instant, template: &str) -> (r: Option<String>)
    ensures
        string_view(r) == template_text(template@, now@),
{
    if template.is_empty() {
        None
    } else {
        chrono_strftime(template, now.utc_seconds(), now.offset_seconds())
    }
}

/// Creates the formatter's input from a date and the time of day of an
/// instant.
pub fn create_datetime(date: &CalendarDate, now: &Instant) -> (input: DateTimeInput)
    ensures
        input == input_for(date@, now@),
        input.year == date@.year,
        input.month == date@.month,
        input.day == date@.day,
        input.hour == now@.hour,
        input.minute == now@.minute,
        input.second == now@.second,
{
    DateTimeInput {
        year: date.year(),
        month: date.month() as u8,
        day: date.day() as u8,
        hour: now.hour() as u8,
        minute: now.minute() as u8,
        second: now.second() as u8,
    }
}

/// Writes the fields of a date and time as the locale has them.
pub fn localized(locale: &str, fields: FieldSet, input: &DateTimeInput) -> (r: Option<String>)
    ensures
        string_view(r) == input_text(locale@, fields, *input),
{
    let date: Option<bool> = match fields.date {
        DatePart::Omitted => None,
        DatePart::MonthDay => Some(false),
        DatePart::MonthDayWeekday => Some(true),
    };
    let time: Option<bool> = match fields.time {
        TimePart::Omitted => None,
        TimePart::ToMinute => Some(false),
        TimePart::ToSecond => Some(true),
    };
    icu_format(
        locale,
        fields.hour23,
        date,
        time,
        input.year,
        input.month,
        input.day,
        input.hour,
        input.minute,
        input.second,
    )
}

/// Writes a text of the calendar's header for the date of an input, as
/// the locale has it.
pub fn localized_date(locale: &str, text: CalendarText, input: &DateTimeInput) -> (r: Option<
    String,
>)
    ensures
        string_view(r) == calendar_text(locale@, text, *input),
{
    let (weekday_only, long) = match text {
        CalendarText::FullDate => (false, true),
        CalendarText::WeekdayName => (true, true),
        CalendarText::WeekdayCaption => (true, false),
    };
    icu_format_date(locale, weekday_only, long, input.year, input.month, input.day)
}

/// How precisely a configuration shows the time.
pub open spec fn time_part_of(config: TimeAppletConfig) -> TimePart {
    if config.show_seconds {
        TimePart::ToSecond
    } else {
        TimePart::ToMinute
    }
}

/// Which calendar fields a configuration shows: none without
/// `show_date_in_top_panel`, and the weekday only where both the date and
/// `show_weekday` are set. The rule is the same for every panel.
pub open spec fn date_part_of(config: TimeAppletConfig) -> DatePart {
    if !config.show_date_in_top_panel {
        DatePart::Omitted
    } else if config.show_weekday {
        DatePart::MonthDayWeekday
    } else {
        DatePart::MonthDay
    }
}

/// How precisely a configuration shows the time.
pub fn time_part(config: &TimeAppletConfig) -> (part: TimePart)
    ensures
        part == time_part_of(*config),
{
    if config.show_seconds {
        TimePart::ToSecond
    } else {
        TimePart::ToMinute
    }
}

/// Which calendar fields a configuration shows.
pub fn date_part(config: &TimeAppletConfig) -> (part: DatePart)
    ensures
        part == date_part_of(*config),
{
    if !config.show_date_in_top_panel {
        DatePart::Omitted
    } else if config.show_weekday {
        DatePart::MonthDayWeekday
    } else {
        DatePart::MonthDay
    }
}

} // verus!
