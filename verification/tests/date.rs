use cosmic_applet_timeplus::date::{CalendarDate, Weekday, MAX_YEAR, MIN_YEAR};
use cosmic_applet_timeplus::instant::Instant;
use cosmic_applet_timeplus::timezone::TimezoneName;

fn ymd(date: CalendarDate) -> (i32, u32, u32) {
    (date.year(), date.month(), date.day())
}

fn date(year: i32, month: u32, day: u32) -> CalendarDate {
    CalendarDate::new(year, month, day).unwrap()
}

#[test]
fn only_days_of_the_calendar_are_dates() {
    assert!(CalendarDate::new(2024, 2, 29).is_some());
    assert!(CalendarDate::new(2023, 2, 29).is_none());
    assert!(CalendarDate::new(1900, 2, 29).is_none());
    assert!(CalendarDate::new(2000, 2, 29).is_some());
    assert!(CalendarDate::new(-4, 2, 29).is_some());
    assert!(CalendarDate::new(2024, 4, 31).is_none());
    assert!(CalendarDate::new(2024, 0, 1).is_none());
    assert!(CalendarDate::new(2024, 13, 1).is_none());
    assert!(CalendarDate::new(2024, 1, 0).is_none());
    assert!(CalendarDate::new(MAX_YEAR, 12, 31).is_some());
    assert!(CalendarDate::new(MAX_YEAR + 1, 1, 1).is_none());
    assert!(CalendarDate::new(MIN_YEAR, 1, 1).is_some());
    assert!(CalendarDate::new(MIN_YEAR - 1, 12, 31).is_none());
    assert_eq!(ymd(date(2024, 3, 15)), (2024, 3, 15));
}

#[test]
fn weekdays_follow_the_day_count() {
    assert_eq!(date(2024, 3, 15).weekday(), Weekday::Fri);
    assert_eq!(date(2024, 3, 1).weekday(), Weekday::Fri);
    assert_eq!(date(2024, 2, 26).weekday(), Weekday::Mon);
    assert_eq!(date(1, 1, 1).weekday(), Weekday::Mon);
    assert_eq!(date(1970, 1, 1).weekday(), Weekday::Thu);
    assert_eq!(date(0, 12, 31).weekday(), Weekday::Sun);
    assert_eq!(date(-1, 3, 7).weekday(), Weekday::Sun);
}

#[test]
fn weekday_numbers_count_from_monday() {
    assert_eq!(Weekday::Mon.num_days_from_monday(), 0);
    assert_eq!(Weekday::Sun.num_days_from_monday(), 6);
    assert_eq!(Weekday::from_monday_index(2), Weekday::Wed);
    assert_eq!(Weekday::from_monday_index(9), Weekday::Wed);
    assert_eq!(Weekday::Sun.succ(), Weekday::Mon);
    assert_eq!(Weekday::Thu.succ(), Weekday::Fri);
}

#[test]
fn next_day_crosses_months_and_years() {
    assert_eq!(date(2024, 2, 28).succ().map(ymd), Some((2024, 2, 29)));
    assert_eq!(date(2024, 2, 29).succ().map(ymd), Some((2024, 3, 1)));
    assert_eq!(date(2023, 2, 28).succ().map(ymd), Some((2023, 3, 1)));
    assert_eq!(date(2023, 12, 31).succ().map(ymd), Some((2024, 1, 1)));
    assert_eq!(date(MAX_YEAR, 12, 31).succ(), None);
}

#[test]
fn days_are_subtracted_by_count() {
    assert_eq!(date(2024, 3, 1).checked_sub_days(4).map(ymd), Some((2024, 2, 26)));
    assert_eq!(date(2024, 3, 1).checked_sub_days(0).map(ymd), Some((2024, 3, 1)));
    assert_eq!(date(2024, 1, 1).checked_sub_days(366).map(ymd), Some((2022, 12, 31)));
    assert_eq!(date(MIN_YEAR, 1, 2).checked_sub_days(1).map(ymd), Some((MIN_YEAR, 1, 1)));
    assert_eq!(date(MIN_YEAR, 1, 2).checked_sub_days(2), None);
    assert_eq!(date(2024, 1, 1).checked_sub_days(u64::MAX), None);
}

#[test]
fn month_steps_shorten_the_day_where_needed() {
    assert_eq!(date(2024, 1, 31).checked_add_month().map(ymd), Some((2024, 2, 29)));
    assert_eq!(date(2024, 12, 15).checked_add_month().map(ymd), Some((2025, 1, 15)));
    assert_eq!(date(2024, 3, 31).checked_sub_month().map(ymd), Some((2024, 2, 29)));
    assert_eq!(date(2024, 1, 15).checked_sub_month().map(ymd), Some((2023, 12, 15)));
    assert_eq!(date(MAX_YEAR, 12, 1).checked_add_month(), None);
    assert_eq!(date(MIN_YEAR, 1, 1).checked_sub_month(), None);
}

#[test]
fn day_of_month_is_replaced_where_it_exists() {
    assert_eq!(date(2024, 4, 10).with_day(30).map(ymd), Some((2024, 4, 30)));
    assert_eq!(date(2024, 4, 10).with_day(31), None);
    assert_eq!(date(2024, 4, 10).with_day(0), None);
    assert_eq!(ymd(date(2024, 4, 10).first_of_month()), (2024, 4, 1));
}

#[test]
fn instants_carry_local_date_and_time() {
    let now = Instant::from_timestamp(1710513000, 0).unwrap();
    assert_eq!(ymd(now.date()), (2024, 3, 15));
    assert_eq!((now.hour(), now.minute(), now.second()), (14, 30, 0));
    assert_eq!((now.utc_seconds(), now.offset_seconds()), (1710513000, 0));
    let west = Instant::from_timestamp(1710513000, -15 * 3600).unwrap();
    assert_eq!(ymd(west.date()), (2024, 3, 14));
    assert_eq!((west.hour(), west.minute(), west.second()), (23, 30, 0));
    let before_epoch = Instant::from_timestamp(-1, 0).unwrap();
    assert_eq!(ymd(before_epoch.date()), (1969, 12, 31));
    assert_eq!((before_epoch.hour(), before_epoch.minute(), before_epoch.second()), (23, 59, 59));
}

#[test]
fn instants_outside_the_calendar_are_refused() {
    assert!(Instant::from_timestamp(0, 86400).is_none());
    assert!(Instant::from_timestamp(0, -86400).is_none());
    assert!(Instant::from_timestamp(0, 86399).is_some());
    assert!(Instant::from_timestamp(i64::MAX, 1).is_none());
    assert!(Instant::from_timestamp(i64::MAX, 0).is_none());
    assert!(Instant::from_timestamp(i64::MIN, 0).is_none());
    // The last second of the last date, and the one after it.
    assert!(Instant::from_timestamp(8210266876799, 0).is_some());
    assert!(Instant::from_timestamp(8210266876800, 0).is_none());
    assert!(Instant::from_timestamp(8210266876799, 1).is_none());
}

#[test]
fn only_names_of_the_database_are_zones() {
    assert!(TimezoneName::parse("Europe/Paris").is_some());
    assert!(TimezoneName::parse("UTC").is_some());
    assert!(TimezoneName::parse("Mars/Olympus").is_none());
    assert!(TimezoneName::parse("").is_none());
    let zone = TimezoneName::parse("America/Sao_Paulo").unwrap();
    assert_eq!(zone.as_str(), "America/Sao_Paulo");
    assert_eq!(zone.duplicate().as_str(), "America/Sao_Paulo");
}

#[test]
fn zones_give_the_offset_of_the_moment() {
    let paris = TimezoneName::parse("Europe/Paris").unwrap();
    let winter = paris.instant_at(1710513000).unwrap();
    assert_eq!(winter.offset_seconds(), 3600);
    assert_eq!((winter.hour(), winter.minute()), (15, 30));
    // 2024-07-15T14:30:00Z
    let summer = paris.instant_at(1721053800).unwrap();
    assert_eq!(summer.offset_seconds(), 7200);
    assert_eq!((summer.hour(), summer.minute()), (16, 30));
    assert!(paris.instant_at(i64::MAX).is_none());
}
