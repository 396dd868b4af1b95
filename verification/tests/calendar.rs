use cosmic_applet_timeplus::calendar::{
    calendar_grid, first_weekday, get_calendar_first, view_calendar, CalendarMessage,
    CalendarState, DayCell, DayStyle, CALENDAR_DAYS,
};
use cosmic_applet_timeplus::date::{CalendarDate, Weekday, MAX_YEAR, MIN_YEAR};
use cosmic_applet_timeplus::instant::Instant;

fn ymd(date: CalendarDate) -> (i32, u32, u32) {
    (date.year(), date.month(), date.day())
}

fn date(year: i32, month: u32, day: u32) -> CalendarDate {
    CalendarDate::new(year, month, day).unwrap()
}

fn state(today: CalendarDate, selected: CalendarDate) -> CalendarState {
    CalendarState { date_today: today, date_selected: selected }
}

#[test]
fn first_day_setting_counts_from_sunday() {
    assert_eq!(first_weekday(0), Weekday::Sun);
    assert_eq!(first_weekday(1), Weekday::Mon);
    assert_eq!(first_weekday(2), Weekday::Tue);
    assert_eq!(first_weekday(6), Weekday::Sat);
    assert_eq!(first_weekday(7), Weekday::Sun);
    assert_eq!(first_weekday(255), Weekday::Sun);
}

#[test]
fn march_2024_from_monday_starts_on_february_26() {
    let first = get_calendar_first(2024, 3, first_weekday(1)).unwrap();
    assert_eq!(ymd(first), (2024, 2, 26));
    assert_eq!(first.weekday(), Weekday::Mon);
    let grid = calendar_grid(&state(date(2024, 3, 15), date(2024, 3, 15)), 1).unwrap();
    assert_eq!(ymd(grid[0].date), (2024, 2, 26));
    assert_eq!(grid[0].date.weekday(), Weekday::Mon);
}

#[test]
fn calendar_first_is_the_start_of_the_week_of_the_first() {
    assert_eq!(get_calendar_first(2024, 3, Weekday::Sun).map(ymd), Some((2024, 2, 25)));
    assert_eq!(get_calendar_first(2024, 3, Weekday::Fri).map(ymd), Some((2024, 3, 1)));
    assert_eq!(get_calendar_first(2024, 3, Weekday::Sat).map(ymd), Some((2024, 2, 24)));
    assert_eq!(get_calendar_first(2024, 9, Weekday::Sun).map(ymd), Some((2024, 9, 1)));
    assert_eq!(get_calendar_first(2024, 1, Weekday::Tue).map(ymd), Some((2023, 12, 26)));
}

#[test]
fn calendar_first_is_nothing_outside_the_calendar() {
    assert_eq!(get_calendar_first(2024, 13, Weekday::Mon), None);
    assert_eq!(get_calendar_first(2024, 0, Weekday::Mon), None);
    assert_eq!(get_calendar_first(MAX_YEAR + 1, 1, Weekday::Mon), None);
    let start = date(MIN_YEAR, 1, 1);
    assert_eq!(get_calendar_first(MIN_YEAR, 1, start.weekday()).map(ymd), Some((MIN_YEAR, 1, 1)));
    assert_eq!(get_calendar_first(MIN_YEAR, 1, start.weekday().succ()), None);
}

#[test]
fn grid_has_six_weeks_of_consecutive_days() {
    let grid = calendar_grid(&state(date(2024, 3, 15), date(2024, 3, 20)), 0).unwrap();
    assert_eq!(grid.len(), CALENDAR_DAYS);
    assert_eq!(ymd(grid[0].date), (2024, 2, 25));
    assert_eq!(ymd(grid[41].date), (2024, 4, 6));
    for i in 1..grid.len() {
        assert_eq!(grid[i - 1].date.succ(), Some(grid[i].date));
    }
    for i in 0..grid.len() {
        let cell = grid[i];
        assert_eq!(cell.is_month, cell.date.month() == 3);
        assert_eq!(cell.is_day, ymd(cell.date) == (2024, 3, 20));
        assert_eq!(cell.is_today, ymd(cell.date) == (2024, 3, 15));
    }
    assert_eq!(grid.iter().filter(|cell| cell.is_month).count(), 31);
}

#[test]
fn grid_is_nothing_at_the_ends_of_the_calendar() {
    let last = date(MAX_YEAR, 12, 31);
    assert_eq!(calendar_grid(&state(last, last), 0), None);
    let first = date(MIN_YEAR, 1, 1);
    assert_eq!(calendar_grid(&state(first, first), (first.weekday().num_days_from_monday() as u8 + 2) % 7), None);
}

#[test]
fn cells_are_styled_and_pressed_by_their_flags() {
    let day = date(2024, 3, 20);
    let cell = |is_month, is_day, is_today| DayCell { date: day, is_month, is_day, is_today };
    assert_eq!(cell(true, true, true).style(), DayStyle::Suggested);
    assert_eq!(cell(true, true, false).style(), DayStyle::Suggested);
    assert_eq!(cell(true, false, true).style(), DayStyle::Standard);
    assert_eq!(cell(false, false, false).style(), DayStyle::Text);
    assert_eq!(cell(true, false, false).on_press(), Some(CalendarMessage::SelectDay(20)));
    assert_eq!(cell(false, false, true).on_press(), None);
}

#[test]
fn new_calendar_selects_today() {
    let now = Instant::from_timestamp(1710513000, 0).unwrap();
    let calendar = CalendarState::new(&now);
    assert_eq!(ymd(calendar.date_today), (2024, 3, 15));
    assert_eq!(ymd(calendar.date_selected), (2024, 3, 15));
    let mut moved = state(date(2020, 1, 1), date(2021, 2, 2));
    moved.reset_to_today(&now);
    assert_eq!(moved, calendar);
}

#[test]
fn previous_then_next_month_returns_to_the_day() {
    for start in [date(2024, 3, 15), date(2024, 1, 31), date(2024, 1, 1), date(2023, 3, 28)] {
        let mut calendar = state(start, start);
        assert!(calendar.update(CalendarMessage::PreviousMonth));
        assert!(calendar.update(CalendarMessage::NextMonth));
        assert_eq!(calendar.date_selected, start);
    }
    let start = date(2024, 12, 25);
    let mut calendar = state(start, start);
    assert!(calendar.update(CalendarMessage::NextMonth));
    assert_eq!(ymd(calendar.date_selected), (2025, 1, 25));
    assert!(calendar.update(CalendarMessage::PreviousMonth));
    assert_eq!(calendar.date_selected, start);
}

#[test]
fn month_step_to_a_missing_day_is_rejected() {
    let start = date(2024, 3, 31);
    let mut calendar = state(start, start);
    assert!(!calendar.update(CalendarMessage::PreviousMonth));
    assert_eq!(calendar.date_selected, start);
    assert!(!calendar.update(CalendarMessage::NextMonth));
    assert_eq!(calendar.date_selected, start);
    let january = date(2023, 1, 30);
    let mut calendar = state(january, january);
    assert!(!calendar.update(CalendarMessage::NextMonth));
    assert_eq!(calendar.date_selected, january);
    let end = date(MAX_YEAR, 12, 1);
    let mut calendar = state(end, end);
    assert!(!calendar.update(CalendarMessage::NextMonth));
    assert_eq!(calendar.date_selected, end);
}

#[test]
fn day_is_selected_within_the_month_on_show() {
    let start = date(2024, 4, 10);
    let mut calendar = state(start, start);
    assert!(calendar.update(CalendarMessage::SelectDay(30)));
    assert_eq!(ymd(calendar.date_selected), (2024, 4, 30));
    assert!(!calendar.update(CalendarMessage::SelectDay(31)));
    assert_eq!(ymd(calendar.date_selected), (2024, 4, 30));
    assert!(!calendar.update(CalendarMessage::SelectDay(0)));
    assert_eq!(ymd(calendar.date_selected), (2024, 4, 30));
    assert_eq!(calendar.date_today, start);
}

#[test]
fn calendar_view_has_header_captions_and_days() {
    let now = Instant::from_timestamp(1710513000, 0).unwrap();
    let calendar = CalendarState::new(&now);
    let view = view_calendar("en-US", &calendar, &now, 1).unwrap();
    assert_eq!(view.date, "March 15, 2024");
    assert_eq!(view.day_of_week, "Friday");
    assert_eq!(view.weekdays, vec!["Mon", "Tue", "Wed", "Thu", "Fri", "Sat", "Sun"]);
    assert_eq!(Some(view.days), calendar_grid(&calendar, 1));
    let sunday_first = view_calendar("en-US", &calendar, &now, 0).unwrap();
    assert_eq!(sunday_first.weekdays, vec!["Sun", "Mon", "Tue", "Wed", "Thu", "Fri", "Sat"]);
    assert_eq!(ymd(sunday_first.days[0].date), (2024, 2, 25));
}

#[test]
fn calendar_view_follows_the_selection_and_the_locale() {
    let now = Instant::from_timestamp(1710513000, 0).unwrap();
    let mut calendar = CalendarState::new(&now);
    assert!(calendar.update(CalendarMessage::NextMonth));
    let view = view_calendar("pt-BR", &calendar, &now, 0).unwrap();
    assert_eq!(view.date, "15 de abril de 2024");
    assert_eq!(view.day_of_week, "segunda-feira");
    assert_eq!(view.weekdays[0], "dom.");
    assert_eq!(ymd(view.days[0].date), (2024, 3, 31));
    assert_eq!(view.days.iter().filter(|cell| cell.is_today).count(), 0);
    assert_eq!(view.days.iter().filter(|cell| cell.is_day).count(), 1);
}

#[test]
fn calendar_view_is_nothing_without_a_locale_or_a_grid() {
    let now = Instant::from_timestamp(1710513000, 0).unwrap();
    let calendar = CalendarState::new(&now);
    assert_eq!(view_calendar("xx yy", &calendar, &now, 0), None);
    let last = date(MAX_YEAR, 12, 31);
    assert_eq!(view_calendar("en-US", &state(last, last), &now, 0), None);
}

#[test]
fn grid_columns_hold_one_weekday_each() {
    for setting in 0..7u8 {
        let selected = date(2024, 2, 29);
        let grid = calendar_grid(&state(selected, selected), setting).unwrap();
        assert_eq!(grid[0].date.weekday(), first_weekday(setting));
        for i in 0..grid.len() {
            assert_eq!(grid[i].date.weekday(), grid[i % 7].date.weekday());
        }
        let shown: Vec<u32> =
            grid.iter().filter(|cell| cell.is_month).map(|cell| cell.date.day()).collect();
        assert_eq!(shown, (1..=29).collect::<Vec<u32>>());
    }
}
