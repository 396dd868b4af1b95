//! Calendar dates in the proleptic Gregorian calendar.
//!
//! The arithmetic itself is done by `chrono`; this module states what each
//! call returns over a small mathematical model of the calendar and keeps
//! the results in a type whose every value is a date that exists.

use chrono::{Datelike, Days, Months, NaiveDate};
use vstd::prelude::*;

verus! {

/// Earliest year a date can have.
pub const MIN_YEAR: i32 = -262143;

/// Latest year a date can have.
pub const MAX_YEAR: i32 = 262142;

/// Whether `year` has a 29th of February.
pub open spec fn is_leap_year(year: int) -> bool {
    year % 4 == 0 && (year % 100 != 0 || year % 400 == 0)
}

/// Number of days of `month` in `year`.
pub open spec fn days_in_month(year: int, month: int) -> int {
    if month == 2 {
        if is_leap_year(year) {
            29
        } else {
            28
        }
    } else if month == 4 || month == 6 || month == 9 || month == 11 {
        30
    } else {
        31
    }
}

/// Whether the calendar has a day `year`-`month`-`day` that a date can hold.
pub open spec fn valid_ymd(year: int, month: int, day: int) -> bool {
    &&& MIN_YEAR <= year <= MAX_YEAR
    &&& 1 <= month <= 12
    &&& 1 <= day <= days_in_month(year, month)
}

/// Days in all the years from year 1 up to, and without, `year`
/// (negative before year 1).
pub open spec fn days_before_year(year: int) -> int {
    let p = year - 1;
    365 * p + p / 4 - p / 100 + p / 400
}

/// Days of `year` that lie before the first of `month`.
pub open spec fn days_before_month(year: int, month: int) -> int
    decreases month,
{
    if month <= 1 {
        0
    } else {
        days_before_month(year, month - 1) + days_in_month(year, month - 1)
    }
}

/// Day count of a date, with the first of January of year 1 as day 1.
pub open spec fn day_number(year: int, month: int, day: int) -> int {
    days_before_year(year) + days_before_month(year, month) + day
}

/// Day number of the earliest date.
pub open spec fn min_day_number() -> int {
    day_number(MIN_YEAR as int, 1, 1)
}

/// Day number of the latest date.
pub open spec fn max_day_number() -> int {
    day_number(MAX_YEAR as int, 12, 31)
}

/// A calendar date as three numbers.
pub struct Ymd {
    pub year: int,
    pub month: int,
    pub day: int,
}

impl Ymd {
    /// The date exists and can be held.
    pub open spec fn valid(self) -> bool {
        valid_ymd(self.year, self.month, self.day)
    }

    /// Its day count from the first of January of year 1.
    pub open spec fn number(self) -> int {
        day_number(self.year, self.month, self.day)
    }

    /// Its weekday, counted from Monday as 0.
    pub open spec fn weekday_from_monday(self) -> int {
        (self.number() - 1) % 7
    }

    /// The first day of its month.
    pub open spec fn first_of_month(self) -> Ymd {
        Ymd { year: self.year, month: self.month, day: 1 }
    }

    /// The same date with another day of the month.
    pub open spec fn with_day(self, day: int) -> Ymd {
        Ymd { year: self.year, month: self.month, day }
    }

    /// The calendar day after this one.
    pub open spec fn next_day(self) -> Ymd {
        if self.day < days_in_month(self.year, self.month) {
            Ymd { year: self.year, month: self.month, day: self.day + 1 }
        } else if self.month < 12 {
            Ymd { year: self.year, month: self.month + 1, day: 1 }
        } else {
            Ymd { year: self.year + 1, month: 1, day: 1 }
        }
    }

    /// The same day of the month, one month later. It need not exist.
    pub open spec fn month_later(self) -> Ymd {
        if self.month == 12 {
            Ymd { year: self.year + 1, month: 1, day: self.day }
        } else {
            Ymd { year: self.year, month: self.month + 1, day: self.day }
        }
    }

    /// The same day of the month, one month earlier. It need not exist.
    pub open spec fn month_earlier(self) -> Ymd {
        if self.month == 1 {
            Ymd { year: self.year - 1, month: 12, day: self.day }
        } else {
            Ymd { year: self.year, month: self.month - 1, day: self.day }
        }
    }

    /// This date with its day lowered to the last day of its month where
    /// the month is shorter.
    pub open spec fn clamped(self) -> Ymd {
        let last = days_in_month(self.year, self.month);
        Ymd {
            year: self.year,
            month: self.month,
            day: if self.day > last {
                last
            } else {
                self.day
            },
        }
    }
}

/// A day of the week.
#[derive(Clone, Copy, Debug, PartialEq, Eq, Structural)]
pub enum Weekday {
    Mon,
    Tue,
    Wed,
    Thu,
    Fri,
    Sat,
    Sun,
}

impl Weekday {
    /// Days since Monday: 0 for Monday up to 6 for Sunday.
    pub open spec fn index(self) -> int {
        match self {
            Weekday::Mon => 0,
            Weekday::Tue => 1,
            Weekday::Wed => 2,
            Weekday::Thu => 3,
            Weekday::Fri => 4,
            Weekday::Sat => 5,
            Weekday::Sun => 6,
        }
    }

    /// The weekday that lies `index` days after a Monday.
    pub open spec fn of_index(index: int) -> Weekday {
        let i = index % 7;
        if i == 0 {
            Weekday::Mon
        } else if i == 1 {
            Weekday::Tue
        } else if i == 2 {
            Weekday::Wed
        } else if i == 3 {
            Weekday::Thu
        } else if i == 4 {
            Weekday::Fri
        } else if i == 5 {
            Weekday::Sat
        } else {
            Weekday::Sun
        }
    }

    /// Days since Monday.
    pub fn num_days_from_monday(self) -> (n: u32)
        ensures
            n == self.index(),
            n < 7,
    {
        match self {
            Weekday::Mon => 0,
            Weekday::Tue => 1,
            Weekday::Wed => 2,
            Weekday::Thu => 3,
            Weekday::Fri => 4,
            Weekday::Sat => 5,
            Weekday::Sun => 6,
        }
    }

    /// The weekday `n` days after a Monday.
    pub fn from_monday_index(n: u32) -> (day: Weekday)
        ensures
            day == Weekday::of_index(n as int),
            day.index() == n % 7,
    {
        let i: u32 = n % 7;
        if i == 0 {
            Weekday::Mon
        } else if i == 1 {
            Weekday::Tue
        } else if i == 2 {
            Weekday::Wed
        } else if i == 3 {
            Weekday::Thu
        } else if i == 4 {
            Weekday::Fri
        } else if i == 5 {
            Weekday::Sat
        } else {
            Weekday::Sun
        }
    }

    /// The day after this one.
    pub fn succ(self) -> (day: Weekday)
        ensures
            day.index() == (self.index() + 1) % 7,
    {
        Weekday::from_monday_index(self.num_days_from_monday() + 1)
    }
}

/// A date that exists: every value is a day of the proleptic Gregorian
/// calendar between the years `MIN_YEAR` and `MAX_YEAR`.
#[derive(Clone, Copy, Debug, PartialEq, Eq, Structural)]
pub struct CalendarDate {
    year: i32,
    month: u32,
    day: u32,
}

impl View for CalendarDate {
    type V = Ymd;

    closed spec fn view(&self) -> Ymd {
        Ymd { year: self.year as int, month: self.month as int, day: self.day as int }
    }
}

/// `NaiveDate::from_ymd_opt`: tells whether chrono has a date with these
/// three numbers, which it has exactly for the days that exist in the
/// proleptic Gregorian calendar within its range of years.
#[verifier::external_body]
fn naive_date_exists(year: i32, month: u32, day: u32) -> (found: bool)
    ensures
        found == valid_ymd(year as int, month as int, day as int),
{
    NaiveDate::from_ymd_opt(year, month, day).is_some()
}

/// `Datelike::with_day` on a `NaiveDate`: the same year and month with the
/// day replaced, or nothing where the month has no such day.
#[verifier::external_body]
fn naive_with_day(year: i32, month: u32, day: u32, new_day: u32) -> (r: Option<(i32, u32, u32)>)
    requires
        valid_ymd(year as int, month as int, day as int),
    ensures
        r == if valid_ymd(year as int, month as int, new_day as int) {
            Some((year, month, new_day))
        } else {
            None
        },
{
    let date = NaiveDate::from_ymd_opt(year, month, day)?.with_day(new_day)?;
    Some((date.year(), date.month(), date.day()))
}

/// `Datelike::weekday` on a `NaiveDate`, as days since Monday. The first of
/// January of year 1 is a Monday, so the weekday follows from the day count.
#[verifier::external_body]
fn naive_weekday(year: i32, month: u32, day: u32) -> (n: u32)
    requires
        valid_ymd(year as int, month as int, day as int),
    ensures
        n == (day_number(year as int, month as int, day as int) - 1) % 7,
{
    NaiveDate::from_ymd_opt(year, month, day).unwrap().weekday().num_days_from_monday()
}

/// `NaiveDate::succ_opt`: the next calendar day, or nothing after the last
/// date chrono can hold.
#[verifier::external_body]
fn naive_succ(year: i32, month: u32, day: u32) -> (r: Option<(i32, u32, u32)>)
    requires
        valid_ymd(year as int, month as int, day as int),
    ensures
        ({
            let next = Ymd { year: year as int, month: month as int, day: day as int }.next_day();
            match r {
                Some((y, m, d)) => next.valid() && next == (Ymd {
                    year: y as int,
                    month: m as int,
                    day: d as int,
                }),
                None => !next.valid(),
            }
        }),
{
    let date = NaiveDate::from_ymd_opt(year, month, day)?.succ_opt()?;
    Some((date.year(), date.month(), date.day()))
}

/// `NaiveDate::checked_sub_days`: the date that many days earlier, or
/// nothing where that day lies before the first date chrono can hold.
#[verifier::external_body]
fn naive_sub_days(year: i32, month: u32, day: u32, days: u64) -> (r: Option<(i32, u32, u32)>)
    requires
        valid_ymd(year as int, month as int, day as int),
    ensures
        ({
            let target = day_number(year as int, month as int, day as int) - days;
            match r {
                Some((y, m, d)) => valid_ymd(y as int, m as int, d as int) && day_number(
                    y as int,
                    m as int,
                    d as int,
                ) == target,
                None => target < min_day_number(),
            }
        }),
{
    let date = NaiveDate::from_ymd_opt(year, month, day)?.checked_sub_days(Days::new(days))?;
    Some((date.year(), date.month(), date.day()))
}

/// `NaiveDate::checked_add_months` with one month: the same day of the
/// next month, lowered to that month's last day where it is shorter, or
/// nothing where the next month lies past the last year.
#[verifier::external_body]
fn naive_add_month(year: i32, month: u32, day: u32) -> (r: Option<(i32, u32, u32)>)
    requires
        valid_ymd(year as int, month as int, day as int),
    ensures
        ({
            let target = Ymd {
                year: year as int,
                month: month as int,
                day: day as int,
            }.month_later().clamped();
            match r {
                Some((y, m, d)) => target.valid() && target == (Ymd {
                    year: y as int,
                    month: m as int,
                    day: d as int,
                }),
                None => !target.valid(),
            }
        }),
{
    let date = NaiveDate::from_ymd_opt(year, month, day)?.checked_add_months(Months::new(1))?;
    Some((date.year(), date.month(), date.day()))
}

/// `NaiveDate::checked_sub_months` with one month: the same day of the
/// previous month, lowered to that month's last day where it is shorter,
/// or nothing where the previous month lies before the first year.
#[verifier::external_body]
fn naive_sub_month(year: i32, month: u32, day: u32) -> (r: Option<(i32, u32, u32)>)
    requires
        valid_ymd(year as int, month as int, day as int),
    ensures
        ({
            let target = Ymd {
                year: year as int,
                month: month as int,
                day: day as int,
            }.month_earlier().clamped();
            match r {
                Some((y, m, d)) => target.valid() && target == (Ymd {
                    year: y as int,
                    month: m as int,
                    day: d as int,
                }),
                None => !target.valid(),
            }
        }),
{
    let date = NaiveDate::from_ymd_opt(year, month, day)?.checked_sub_months(Months::new(1))?;
    Some((date.year(), date.month(), date.day()))
}

impl CalendarDate {
    /// What every value satisfies: its view is a date that exists.
    #[verifier::type_invariant]
    pub open spec fn is_date(self) -> bool {
        self@.valid()
    }

    /// The date with these numbers, where the calendar has it.
    pub fn new(year: i32, month: u32, day: u32) -> (r: Option<CalendarDate>)
        ensures
            r is Some <==> valid_ymd(year as int, month as int, day as int),
            r matches Some(date) ==> date@ == (Ymd {
                year: year as int,
                month: month as int,
                day: day as int,
            }),
    {
        if naive_date_exists(year, month, day) {
            Some(CalendarDate { year, month, day })
        } else {
            None
        }
    }

    /// The year.
    pub fn year(&self) -> (year: i32)
        ensures
            year == self@.year,
            self@.valid(),
    {
        proof {
            use_type_invariant(self);
        }
        self.year
    }

    /// The month, from 1 to 12.
    pub fn month(&self) -> (month: u32)
        ensures
            month == self@.month,
            1 <= month <= 12,
            self@.valid(),
    {
        proof {
            use_type_invariant(self);
        }
        self.month
    }

    /// The day of the month, from 1.
    pub fn day(&self) -> (day: u32)
        ensures
            day == self@.day,
            1 <= day <= 31,
            self@.valid(),
    {
        proof {
            use_type_invariant(self);
        }
        self.day
    }

    /// The day of the week.
    pub fn weekday(&self) -> (day: Weekday)
        ensures
            day.index() == self@.weekday_from_monday(),
    {
        proof {
            use_type_invariant(self);
        }
        Weekday::from_monday_index(naive_weekday(self.year, self.month, self.day))
    }

    /// The same month with another day, where the month has that day.
    pub fn with_day(&self, day: u32) -> (r: Option<CalendarDate>)
        ensures
            r is Some <==> self@.with_day(day as int).valid(),
            r matches Some(date) ==> date@ == self@.with_day(day as int),
    {
        proof {
            use_type_invariant(self);
        }
        match naive_with_day(self.year, self.month, self.day, day) {
            Some((y, m, d)) => Some(CalendarDate { year: y, month: m, day: d }),
            None => None,
        }
    }

    /// The first day of this date's month.
    pub fn first_of_month(&self) -> (first: CalendarDate)
        ensures
            first@ == self@.first_of_month(),
            first@.valid(),
    {
        proof {
            use_type_invariant(self);
        }
        match naive_with_day(self.year, self.month, self.day, 1) {
            Some((y, m, d)) => CalendarDate { year: y, month: m, day: d },
            None => *self,
        }
    }

    /// The next calendar day; nothing after the last date.
    pub fn succ(&self) -> (r: Option<CalendarDate>)
        ensures
            r is Some <==> self@.next_day().valid(),
            r matches Some(date) ==> date@ == self@.next_day(),
    {
        proof {
            use_type_invariant(self);
        }
        match naive_succ(self.year, self.month, self.day) {
            Some((y, m, d)) => Some(CalendarDate { year: y, month: m, day: d }),
            None => None,
        }
    }

    /// The date `days` days earlier; nothing before the first date.
    pub fn checked_sub_days(&self, days: u64) -> (r: Option<CalendarDate>)
        ensures
            r is Some <==> self@.number() - days >= min_day_number(),
            r matches Some(date) ==> date@.valid() && date@.number() == self@.number() - days,
    {
        proof {
            use_type_invariant(self);
        }
        match naive_sub_days(self.year, self.month, self.day, days) {
            Some((y, m, d)) => {
                proof {
                    lemma_day_number_lower_bound(y as int, m as int, d as int);
                }
                Some(CalendarDate { year: y, month: m, day: d })
            },
            None => None,
        }
    }

    /// The same day one month later, lowered to the last day of that month
    /// where it is shorter; nothing past the last year.
    pub fn checked_add_month(&self) -> (r: Option<CalendarDate>)
        ensures
            r is Some <==> self@.month_later().clamped().valid(),
            r matches Some(date) ==> date@ == self@.month_later().clamped(),
    {
        proof {
            use_type_invariant(self);
        }
        match naive_add_month(self.year, self.month, self.day) {
            Some((y, m, d)) => Some(CalendarDate { year: y, month: m, day: d }),
            None => None,
        }
    }

    /// The same day one month earlier, lowered to the last day of that
    /// month where it is shorter; nothing before the first year.
    pub fn checked_sub_month(&self) -> (r: Option<CalendarDate>)
        ensures
            r is Some <==> self@.month_earlier().clamped().valid(),
            r matches Some(date) ==> date@ == self@.month_earlier().clamped(),
    {
        proof {
            use_type_invariant(self);
        }
        match naive_sub_month(self.year, self.month, self.day) {
            Some((y, m, d)) => Some(CalendarDate { year: y, month: m, day: d }),
            None => None,
        }
    }
}

/// The days before each month, written out.
pub proof fn lemma_days_before_month(year: int, month: int)
    requires
        1 <= month <= 13,
    ensures
        days_before_month(year, month) == (if month == 1 {
            0int
        } else if month == 2 {
            31
        } else {
            let leap: int = if is_leap_year(year) {
                1
            } else {
                0
            };
            leap + (if month == 3 {
                59int
            } else if month == 4 {
                90
            } else if month == 5 {
                120
            } else if month == 6 {
                151
            } else if month == 7 {
                181
            } else if month == 8 {
                212
            } else if month == 9 {
                243
            } else if month == 10 {
                273
            } else if month == 11 {
                304
            } else if month == 12 {
                334
            } else {
                365
            })
        }),
{
    reveal_with_fuel(days_before_month, 14);
}

/// A year's days follow those of the year before it.
pub proof fn lemma_days_before_next_year(year: int)
    ensures
        days_before_year(year + 1) == days_before_year(year) + days_before_month(year, 13),
{
    lemma_days_before_month(year, 13);
    let p = year - 1;
    assert(year / 4 == p / 4 + (if year % 4 == 0 {
        1int
    } else {
        0
    }));
    assert(year / 100 == p / 100 + (if year % 100 == 0 {
        1int
    } else {
        0
    }));
    assert(year / 400 == p / 400 + (if year % 400 == 0 {
        1int
    } else {
        0
    }));
}

/// The day after a date has the next day number.
pub proof fn lemma_next_day_number(date: Ymd)
    requires
        1 <= date.month <= 12,
        1 <= date.day <= days_in_month(date.year, date.month),
    ensures
        date.next_day().number() == date.number() + 1,
        1 <= date.next_day().month <= 12,
        1 <= date.next_day().day <= days_in_month(date.next_day().year, date.next_day().month),
{
    lemma_days_before_month(date.year, date.month);
    lemma_days_before_month(date.year, date.month + 1);
    lemma_days_before_month(date.year + 1, 1);
    lemma_days_before_next_year(date.year);
}

/// Years later in time start on later days.
pub proof fn lemma_days_before_year_monotonic(a: int, b: int)
    requires
        a <= b,
    ensures
        days_before_year(a) + 365 * (b - a) <= days_before_year(b),
    decreases b - a,
{
    if a < b {
        lemma_days_before_year_monotonic(a, b - 1);
        lemma_days_before_next_year(b - 1);
        lemma_days_before_month(b - 1, 13);
    }
}

/// No date that exists has a day number below that of the first date.
pub proof fn lemma_day_number_lower_bound(year: int, month: int, day: int)
    requires
        valid_ymd(year, month, day),
    ensures
        min_day_number() <= day_number(year, month, day) <= max_day_number(),
{
    lemma_days_before_month(year, month);
    lemma_days_before_month(MIN_YEAR as int, 1);
    lemma_days_before_month(MAX_YEAR as int, 12);
    lemma_days_before_year_monotonic(MIN_YEAR as int, year);
    if year < MAX_YEAR {
        lemma_days_before_year_monotonic(year + 1, MAX_YEAR as int);
        lemma_days_before_next_year(year);
        lemma_days_before_month(year, 13);
    }
}

/// Earlier dates have smaller day numbers: the count orders dates as the
/// calendar does.
pub proof fn lemma_day_number_ordered(a: Ymd, b: Ymd)
    requires
        1 <= a.month <= 12,
        1 <= a.day <= days_in_month(a.year, a.month),
        1 <= b.month <= 12,
        1 <= b.day <= days_in_month(b.year, b.month),
        a.year < b.year || (a.year == b.year && (a.month < b.month || (a.month == b.month && a.day
            < b.day))),
    ensures
        a.number() < b.number(),
{
    lemma_days_before_month(a.year, a.month);
    lemma_days_before_month(a.year, 13);
    lemma_days_before_month(b.year, b.month);
    if a.year < b.year {
        lemma_days_before_next_year(a.year);
        lemma_days_before_year_monotonic(a.year + 1, b.year);
    }
}

/// Two dates with one day number are one date.
pub proof fn lemma_day_number_injective(a: Ymd, b: Ymd)
    requires
        1 <= a.month <= 12,
        1 <= a.day <= days_in_month(a.year, a.month),
        1 <= b.month <= 12,
        1 <= b.day <= days_in_month(b.year, b.month),
        a.number() == b.number(),
    ensures
        a == b,
{
    if a.year < b.year || (a.year == b.year && (a.month < b.month || (a.month == b.month && a.day
        < b.day))) {
        lemma_day_number_ordered(a, b);
    } else if b.year < a.year || (b.year == a.year && (b.month < a.month || (b.month == a.month
        && b.day < a.day))) {
        lemma_day_number_ordered(b, a);
    }
}

} // verus!
