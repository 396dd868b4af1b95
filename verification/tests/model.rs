use cosmic_applet_timeplus::date::{CalendarDate, MAX_YEAR, MIN_YEAR};
use cosmic_applet_timeplus::instant::Instant;

fn is_leap_year(year: i64) -> bool {
    year.rem_euclid(4) == 0 && (year.rem_euclid(100) != 0 || year.rem_euclid(400) == 0)
}

fn days_in_month(year: i64, month: i64) -> i64 {
    match month {
        2 => {
            if is_leap_year(year) {
                29
            } else {
                28
            }
        }
        4 | 6 | 9 | 11 => 30,
        _ => 31,
    }
}

fn day_number(year: i64, month: i64, day: i64) -> i64 {
    let p = year - 1;
    let before_year = 365 * p + p.div_euclid(4) - p.div_euclid(100) + p.div_euclid(400);
    let before_month: i64 = (1..month).map(|m| days_in_month(year, m)).sum();
    before_year + before_month + day
}

fn number_of(date: CalendarDate) -> i64 {
    day_number(date.year() as i64, date.month() as i64, date.day() as i64)
}

fn sample_years() -> Vec<i32> {
    let mut years = vec![MIN_YEAR, MIN_YEAR + 1, -401, -400, -399, -101, -100, -5, -4, -1, 0, 1, 2, 4];
    years.extend([100, 400, 1582, 1600, 1899, 1900, 1969, 1970, 1999, 2000, 2023, 2024, 2100]);
    years.extend([MAX_YEAR - 1, MAX_YEAR]);
    years
}

#[test]
fn dates_exist_exactly_where_the_calendar_has_them() {
    for year in sample_years() {
        for month in 0..=13u32 {
            for day in 0..=32u32 {
                let expected = (1..=12).contains(&month)
                    && 1 <= day
                    && (day as i64) <= days_in_month(year as i64, month as i64);
                assert_eq!(CalendarDate::new(year, month, day).is_some(), expected);
            }
        }
    }
}

#[test]
fn day_numbers_count_from_the_first_of_january_of_year_one() {
    assert_eq!(day_number(1, 1, 1), 1);
    assert_eq!(day_number(2, 1, 1), 366);
    assert_eq!(day_number(0, 1, 1), -365);
    assert_eq!(day_number(1970, 1, 1), 719163);
}

#[test]
fn weekday_is_the_day_number_counted_in_sevens() {
    for year in sample_years() {
        for month in 1..=12u32 {
            for day in [1u32, 2, 15, 28] {
                let date = CalendarDate::new(year, month, day).unwrap();
                let expected = (number_of(date) - 1).rem_euclid(7);
                assert_eq!(date.weekday().num_days_from_monday() as i64, expected);
            }
        }
    }
}

#[test]
fn next_day_has_the_next_day_number() {
    for year in sample_years() {
        for month in 1..=12u32 {
            for day in [1u32, 27, 28, 29, 30, 31] {
                if let Some(date) = CalendarDate::new(year, month, day) {
                    match date.succ() {
                        Some(next) => assert_eq!(number_of(next), number_of(date) + 1),
                        None => assert_eq!((year, month, day), (MAX_YEAR, 12, 31)),
                    }
                }
            }
        }
    }
}

#[test]
fn days_back_lower_the_day_number() {
    let lowest = day_number(MIN_YEAR as i64, 1, 1);
    for year in sample_years() {
        let date = CalendarDate::new(year, 3, 1).unwrap();
        for days in [0u64, 1, 6, 28, 59, 60, 365, 366, 146097, 1000000] {
            match date.checked_sub_days(days) {
                Some(earlier) => assert_eq!(number_of(earlier), number_of(date) - days as i64),
                None => assert!(number_of(date) - (days as i64) < lowest),
            }
        }
    }
}

#[test]
fn month_steps_keep_or_shorten_the_day() {
    for year in sample_years() {
        for month in 1..=12u32 {
            for day in [1u32, 28, 29, 30, 31] {
                let Some(date) = CalendarDate::new(year, month, day) else { continue };
                let (later_year, later_month) =
                    if month == 12 { (year as i64 + 1, 1) } else { (year as i64, month as i64 + 1) };
                let expected = (day as i64).min(days_in_month(later_year, later_month));
                match date.checked_add_month() {
                    Some(later) => assert_eq!(
                        (later.year() as i64, later.month() as i64, later.day() as i64),
                        (later_year, later_month, expected)
                    ),
                    None => assert!(later_year > MAX_YEAR as i64),
                }
                let (earlier_year, earlier_month) =
                    if month == 1 { (year as i64 - 1, 12) } else { (year as i64, month as i64 - 1) };
                let expected = (day as i64).min(days_in_month(earlier_year, earlier_month));
                match date.checked_sub_month() {
                    Some(earlier) => assert_eq!(
                        (earlier.year() as i64, earlier.month() as i64, earlier.day() as i64),
                        (earlier_year, earlier_month, expected)
                    ),
                    None => assert!(earlier_year < MIN_YEAR as i64),
                }
            }
        }
    }
}

#[test]
fn instant_is_its_seconds_told_as_date_and_time() {
    let lowest = (day_number(MIN_YEAR as i64, 1, 1) - 719163) * 86400;
    let highest = (day_number(MAX_YEAR as i64, 12, 31) - 719163) * 86400 + 86399;
    let moments = [
        0i64, 1, -1, 59, 86399, 86400, -86400, -86401, 951782400, 1710513000, 4102444800,
        -62135596800, -62135596801, lowest, lowest + 1, highest, highest - 1,
    ];
    for utc in moments {
        for offset in [0i32, 1, -1, 3600, -3600, 20700, 86399, -86399] {
            let local = utc + offset as i64;
            match Instant::from_timestamp(utc, offset) {
                Some(now) => {
                    let seconds = (number_of(now.date()) - 719163) * 86400
                        + now.hour() as i64 * 3600
                        + now.minute() as i64 * 60
                        + now.second() as i64;
                    assert_eq!(seconds, local);
                    assert!(now.hour() < 24 && now.minute() < 60 && now.second() < 60);
                }
                None => assert!(local < lowest || local > highest),
            }
        }
    }
    assert!(Instant::from_timestamp(lowest - 1, 0).is_none());
    assert!(Instant::from_timestamp(highest + 1, 0).is_none());
}
