//! The popup's calendar: the day that is today, the day that is selected,
//! stepping through months, and the grid of days of the month on show.

use crate::date::{
    days_in_month, lemma_day_number_injective, lemma_day_number_lower_bound,
    lemma_day_number_ordered, lemma_next_day_number, max_day_number, min_day_number, valid_ymd,
    CalendarDate, Weekday, Ymd, MAX_YEAR,
};
use crate::format::{
    calendar_text, create_datetime, input_for, localized_date, CalendarText,
};
use crate::instant::{Instant, InstantModel};
use vstd::prelude::*;

verus! {

/// Cells in the grid: six weeks of seven days.
pub const CALENDAR_DAYS: usize = 42;

/// What the user did in the calendar.
#[derive(Debug, Clone, Copy, PartialEq, Eq, Structural)]
pub enum CalendarMessage {
    /// Picked a day of the month on show.
    SelectDay(u32),
    /// Went one month back.
    PreviousMonth,
    /// Went one month on.
    NextMonth,
}

/// Today's date and the date selected in the popup.
#[derive(Debug, Clone, Copy, PartialEq, Eq, Structural)]
pub struct CalendarState {
    pub date_today: CalendarDate,
    pub date_selected: CalendarDate,
}

/// The date that a message moves the selection to: the same day one
/// month earlier or later, or another day of the same month. Nothing
/// where the calendar has no such day.
pub open spec fn target_of(selected: Ymd, message: CalendarMessage) -> Option<Ymd> {
    let target = match message {
        CalendarMessage::SelectDay(day) => selected.with_day(day as int),
        CalendarMessage::PreviousMonth => selected.month_earlier(),
        CalendarMessage::NextMonth => selected.month_later(),
    };
    if target.valid() {
        Some(target)
    } else {
        None
    }
}

/// The selection after a message: the target where there is one, else the
/// selection as it was.
pub open spec fn navigate(selected: Ymd, message: CalendarMessage) -> Ymd {
    match target_of(selected, message) {
        Some(target) => target,
        None => selected,
    }
}

impl CalendarState {
    /// A calendar for the moment `now`: today is its local date, and
    /// today is selected.
    pub fn new(now: &Instant) -> (state: CalendarState)
        ensures
            state.date_today@ == now@.date,
            state.date_selected@ == now@.date,
    {
        let today = now.date();
        CalendarState { date_today: today, date_selected: today }
    }

    /// Makes the local date of `now` today, and selects it.
    pub fn reset_to_today(&mut self, now: &Instant)
        ensures
            final(self).date_today@ == now@.date,
            final(self).date_selected@ == now@.date,
    {
        self.date_today = now.date();
        self.date_selected = self.date_today;
    }

    /// Moves the selection as the message asks. Where the calendar has no
    /// such day (the 31st in a month of 30 days, the 30th of February) the
    /// selection stays as it was and the result is `false`.
    pub fn update(&mut self, message: CalendarMessage) -> (moved: bool)
        ensures
            final(self).date_today == old(self).date_today,
            final(self).date_selected@ == navigate(old(self).date_selected@, message),
            final(self).date_selected@.valid(),
            moved == target_of(old(self).date_selected@, message).is_some(),
            !moved ==> *final(self) == *old(self),
    {
        let selected = self.date_selected;
        let day: u32 = selected.day();
        let target = match message {
            CalendarMessage::SelectDay(new_day) => selected.with_day(new_day),
            CalendarMessage::PreviousMonth => keep_day(selected.checked_sub_month(), day),
            CalendarMessage::NextMonth => keep_day(selected.checked_add_month(), day),
        };
        match target {
            Some(date) => {
                proof {
                    use_type_invariant(&date);
                }
                self.date_selected = date;
                true
            },
            None => false,
        }
    }
}

/// The date, where its day of the month is `day`: a month step that had
/// to shorten the day is no step.
fn keep_day(stepped: Option<CalendarDate>, day: u32) -> (r: Option<CalendarDate>)
    ensures
        r == (match stepped {
            Some(date) => if date@.day == day {
                Some(date)
            } else {
                None
            },
            None => None,
        }),
{
    match stepped {
        Some(date) => {
            if date.day() == day {
                Some(date)
            } else {
                None
            }
        },
        None => None,
    }
}

/// The weekday that weeks start on under a `first_day_of_week` setting:
/// 0 is Sunday, 1 is Monday, up to 6 for Saturday. Any other number
/// stands for Sunday.
pub open spec fn weekday_of_setting(setting: int) -> Weekday {
    if 1 <= setting <= 6 {
        Weekday::of_index(setting - 1)
    } else {
        Weekday::Sun
    }
}

/// The weekday that weeks start on under a `first_day_of_week` setting.
pub fn first_weekday(first_day_of_week: u8) -> (day: Weekday)
    ensures
        day == weekday_of_setting(first_day_of_week as int),
{
    if 1 <= first_day_of_week && first_day_of_week <= 6 {
        Weekday::from_monday_index((first_day_of_week - 1) as u32)
    } else {
        Weekday::Sun
    }
}

/// Days from the start of a week that begins on `from_weekday` to the day
/// that a date falls on.
pub open spec fn days_into_week(date: Ymd, from_weekday: Weekday) -> int {
    (date.weekday_from_monday() - from_weekday.index()) % 7
}

/// Gets the first date that is visible on the calendar of a month: the
/// last day on or before the first of the month that falls on
/// `from_weekday`. Nothing where the month is none of the calendar's, or
/// that day lies before its first date.
pub fn get_calendar_first(year: i32, month: u32, from_weekday: Weekday) -> (r: Option<
    CalendarDate,
>)
    ensures
        r is Some <==> {
            &&& valid_ymd(year as int, month as int, 1)
            &&& min_day_number() <= (Ymd {
                year: year as int,
                month: month as int,
                day: 1,
            }).number() - days_into_week(
                Ymd { year: year as int, month: month as int, day: 1 },
                from_weekday,
            )
        },
        r matches Some(first) ==> {
            let start = Ymd { year: year as int, month: month as int, day: 1 };
            &&& first@.valid()
            &&& first@.weekday_from_monday() == from_weekday.index()
            &&& first@.number() == start.number() - days_into_week(start, from_weekday)
            &&& start.number() - 6 <= first@.number() <= start.number()
        },
{
    let start = match CalendarDate::new(year, month, 1) {
        Some(date) => date,
        None => {
            return None;
        },
    };
    let num_days: u32 = (start.weekday().num_days_from_monday() + 7
        - from_weekday.num_days_from_monday()) % 7;
    assert(num_days == days_into_week(start@, from_weekday));
    start.checked_sub_days(num_days as u64)
}

/// How a day of the grid is drawn.
#[derive(Debug, Clone, Copy, PartialEq, Eq, Structural)]
pub enum DayStyle {
    /// The selected day.
    Suggested,
    /// Today, where it is not selected.
    Standard,
    /// Any other day.
    Text,
}

/// One day of the grid.
#[derive(Debug, Clone, Copy, PartialEq, Eq, Structural)]
pub struct DayCell {
    /// The day shown.
    pub date: CalendarDate,
    /// It lies in the month of the selected date.
    pub is_month: bool,
    /// It is the selected date.
    pub is_day: bool,
    /// It is today.
    pub is_today: bool,
}

/// The cell for `date` in the grid of a calendar with this selection and
/// this today.
pub open spec fn cell_flags_hold(cell: DayCell, selected: Ymd, today: Ymd) -> bool {
    &&& cell.is_month == (cell.date@.month == selected.month && cell.date@.year == selected.year)
    &&& cell.is_day == (cell.date@ == selected)
    &&& cell.is_today == (cell.date@ == today)
}

impl DayCell {
    /// How the day is drawn: the selected day stands out, then today.
    pub fn style(&self) -> (style: DayStyle)
        ensures
            style == (if self.is_day {
                DayStyle::Suggested
            } else if self.is_today {
                DayStyle::Standard
            } else {
                DayStyle::Text
            }),
    {
        if self.is_day {
            DayStyle::Suggested
        } else if self.is_today {
            DayStyle::Standard
        } else {
            DayStyle::Text
        }
    }

    /// What pressing the day sends: days of the month on show select
    /// themselves, the days around it do nothing.
    pub fn on_press(&self) -> (message: Option<CalendarMessage>)
        ensures
            message == (if self.is_month {
                Some(CalendarMessage::SelectDay(self.date@.day as u32))
            } else {
                None
            }),
    {
        if self.is_month {
            Some(CalendarMessage::SelectDay(self.date.day()))
        } else {
            None
        }
    }
}

/// Whether `cells` are the days of the grid that starts on the day
/// numbered `first`: consecutive days, each with its flags.
pub open spec fn is_grid(cells: Seq<DayCell>, first: int, selected: Ymd, today: Ymd) -> bool {
    &&& cells.len() == CALENDAR_DAYS
    &&& forall|i: int|
        0 <= i < cells.len() ==> {
            &&& (#[trigger] cells[i]).date@.valid()
            &&& cells[i].date@.number() == first + i
            &&& cell_flags_hold(cells[i], selected, today)
        }
}

/// The day number of the first day of the grid for the month of a
/// selected date: the start of the week that the first of the month lies
/// in, under a `first_day_of_week` setting.
pub open spec fn grid_first(selected: Ymd, setting: int) -> int {
    let start = selected.first_of_month();
    start.number() - days_into_week(start, weekday_of_setting(setting))
}

/// Whether the calendar has all the days of the grid that starts on the
/// day numbered `first`.
pub open spec fn grid_exists(first: int) -> bool {
    min_day_number() <= first && first + CALENDAR_DAYS - 1 <= max_day_number()
}

/// The 42 days shown for the month of the selected date, in weeks that
/// start on the weekday of the `first_day_of_week` setting. Nothing
/// where the grid would reach past the calendar's first or last date.
pub fn calendar_grid(state: &CalendarState, first_day_of_week: u8) -> (r: Option<Vec<DayCell>>)
    ensures
        r is Some <==> grid_exists(grid_first(state.date_selected@, first_day_of_week as int)),
        r matches Some(cells) ==> is_grid(
            cells@,
            grid_first(state.date_selected@, first_day_of_week as int),
            state.date_selected@,
            state.date_today@,
        ),
{
    let selected = state.date_selected;
    let today = state.date_today;
    let ghost start = selected@.first_of_month();
    let from_weekday = first_weekday(first_day_of_week);
    let first = match get_calendar_first(selected.year(), selected.month(), from_weekday) {
        Some(date) => date,
        None => {
            return None;
        },
    };
    let ghost first_number = first@.number();
    assert(start == Ymd { year: selected@.year, month: selected@.month, day: 1 });
    let mut cells: Vec<DayCell> = Vec::new();
    let mut date = first;
    let mut i: usize = 0;
    while i < CALENDAR_DAYS
        invariant
            i <= CALENDAR_DAYS,
            cells.len() == i,
            selected == state.date_selected,
            today == state.date_today,
            start == selected@.first_of_month(),
            first_number == start.number() - days_into_week(
                start,
                weekday_of_setting(first_day_of_week as int),
            ),
            min_day_number() <= first_number,
            date@.valid(),
            i < CALENDAR_DAYS ==> date@.number() == first_number + i,
            i > 0 ==> first_number + i - 1 <= max_day_number(),
            forall|j: int|
                0 <= j < i ==> {
                    &&& (#[trigger] cells[j]).date@.valid()
                    &&& cells[j].date@.number() == first_number + j
                    &&& cell_flags_hold(cells[j], selected@, today@)
                },
        decreases CALENDAR_DAYS - i,
    {
        let is_month = date.month() == selected.month() && date.year() == selected.year();
        let is_day = is_month && date.day() == selected.day();
        let is_today = date.year() == today.year() && date.month() == today.month() && date.day()
            == today.day();
        cells.push(DayCell { date, is_month, is_day, is_today });
        i += 1;
        proof {
            lemma_day_number_lower_bound(date@.year, date@.month, date@.day);
            lemma_next_day_in_calendar(date@);
            lemma_next_day_number(date@);
        }
        if i < CALENDAR_DAYS {
            match date.succ() {
                Some(next) => {
                    date = next;
                },
                None => {
                    return None;
                },
            }
        }
    }
    Some(cells)
}

/// The date of the calendar with a day number.
pub open spec fn date_numbered(number: int) -> Ymd {
    choose|date: Ymd| date.valid() && date.number() == number
}

/// What the popup's calendar shows.
#[derive(Debug, Clone, PartialEq, Eq)]
pub struct CalendarView {
    /// The selected date, written out.
    pub date: String,
    /// The weekday of the selected date, written out.
    pub day_of_week: String,
    /// The captions of the seven columns.
    pub weekdays: Vec<String>,
    /// The days of the grid, week by week.
    pub days: Vec<DayCell>,
}

/// Whether a locale can write all the texts of the calendar for a
/// selection: the selected date, its weekday, and the captions of the
/// seven days from the day numbered `first`.
pub open spec fn calendar_texts_exist(
    locale: Seq<char>,
    selected: Ymd,
    first: int,
    now: InstantModel,
) -> bool {
    &&& calendar_text(locale, CalendarText::FullDate, input_for(selected, now)) is Some
    &&& calendar_text(locale, CalendarText::WeekdayName, input_for(selected, now)) is Some
    &&& forall|i: int|
        0 <= i < 7 ==> calendar_text(
            locale,
            CalendarText::WeekdayCaption,
            input_for(#[trigger] date_numbered(first + i), now),
        ) is Some
}

/// Whether a view is the calendar of a state in a locale: the grid of the
/// selected month, the selected date and its weekday written out, and
/// above each column the weekday of its days.
pub open spec fn is_calendar_view(
    view: CalendarView,
    locale: Seq<char>,
    state: CalendarState,
    now: InstantModel,
    setting: int,
) -> bool {
    let selected = state.date_selected@;
    &&& is_grid(view.days@, grid_first(selected, setting), selected, state.date_today@)
    &&& calendar_text(locale, CalendarText::FullDate, input_for(selected, now)) == Some(
        view.date@,
    )
    &&& calendar_text(locale, CalendarText::WeekdayName, input_for(selected, now)) == Some(
        view.day_of_week@,
    )
    &&& view.weekdays.len() == 7
    &&& forall|i: int|
        0 <= i < 7 ==> calendar_text(
            locale,
            CalendarText::WeekdayCaption,
            input_for(view.days[i].date@, now),
        ) == Some(#[trigger] view.weekdays[i]@)
}

/// What the calendar shows for a state: header, captions and days.
/// Nothing where the grid would leave the calendar or the locale cannot
/// write one of the texts.
pub fn view_calendar(
    locale: &str,
    calendar_state: &CalendarState,
    now: &Instant,
    first_day_of_week: u8,
) -> (r: Option<CalendarView>)
    ensures
        r is Some <==> {
            &&& grid_exists(grid_first(calendar_state.date_selected@, first_day_of_week as int))
            &&& calendar_texts_exist(
                locale@,
                calendar_state.date_selected@,
                grid_first(calendar_state.date_selected@, first_day_of_week as int),
                now@,
            )
        },
        r matches Some(view) ==> is_calendar_view(
            view,
            locale@,
            *calendar_state,
            now@,
            first_day_of_week as int,
        ),
{
    let ghost first = grid_first(calendar_state.date_selected@, first_day_of_week as int);
    let days = match calendar_grid(calendar_state, first_day_of_week) {
        Some(days) => days,
        None => {
            return None;
        },
    };
    let input = create_datetime(&calendar_state.date_selected, now);
    let date = match localized_date(locale, CalendarText::FullDate, &input) {
        Some(text) => text,
        None => {
            return None;
        },
    };
    let day_of_week = match localized_date(locale, CalendarText::WeekdayName, &input) {
        Some(text) => text,
        None => {
            return None;
        },
    };
    let mut weekdays: Vec<String> = Vec::new();
    let mut i: usize = 0;
    while i < 7
        invariant
            i <= 7,
            weekdays.len() == i,
            first == grid_first(calendar_state.date_selected@, first_day_of_week as int),
            is_grid(days@, first, calendar_state.date_selected@, calendar_state.date_today@),
            forall|j: int|
                0 <= j < i ==> calendar_text(
                    locale@,
                    CalendarText::WeekdayCaption,
                    input_for(days[j].date@, now@),
                ) == Some(#[trigger] weekdays[j]@),
            forall|j: int|
                0 <= j < i ==> calendar_text(
                    locale@,
                    CalendarText::WeekdayCaption,
                    input_for(#[trigger] date_numbered(first + j), now@),
                ) is Some,
        decreases 7 - i,
    {
        proof {
            lemma_date_numbered(days[i as int].date@);
            assert(date_numbered(first + i) == days[i as int].date@);
        }
        let caption = localized_date(
            locale,
            CalendarText::WeekdayCaption,
            &create_datetime(&days[i].date, now),
        );
        match caption {
            Some(text) => {
                weekdays.push(text);
            },
            None => {
                return None;
            },
        }
        i += 1;
    }
    Some(CalendarView { date, day_of_week, weekdays, days })
}

/// Each date of the calendar is the one with its day number.
pub proof fn lemma_date_numbered(date: Ymd)
    requires
        date.valid(),
    ensures
        date_numbered(date.number()) == date,
{
    let found = date_numbered(date.number());
    assert(found.valid() && found.number() == date.number());
    lemma_day_number_injective(found, date);
}

/// The day after a date is a date of the calendar unless the date is the
/// calendar's last.
pub proof fn lemma_next_day_in_calendar(date: Ymd)
    requires
        date.valid(),
    ensures
        date.next_day().valid() <==> date.number() < max_day_number(),
{
    let last = Ymd { year: MAX_YEAR as int, month: 12, day: 31 };
    lemma_next_day_number(date);
    if date != last {
        lemma_day_number_ordered(date, last);
    }
}

/// Each column of the grid holds one weekday, and the first column the
/// weekday that the setting starts weeks on.
pub proof fn lemma_grid_columns(
    cells: Seq<DayCell>,
    selected: Ymd,
    today: Ymd,
    setting: int,
    i: int,
)
    requires
        is_grid(cells, grid_first(selected, setting), selected, today),
        0 <= i < cells.len(),
    ensures
        cells[i].date@.weekday_from_monday() == (weekday_of_setting(setting).index() + i) % 7,
        cells[0].date@.weekday_from_monday() == weekday_of_setting(setting).index(),
{
    let start = selected.first_of_month();
    let from = weekday_of_setting(setting).index();
    let first = grid_first(selected, setting);
    assert(0 <= from < 7);
    assert((first - 1) % 7 == from);
    assert(cells[i].date@.number() == first + i);
    assert(cells[0].date@.number() == first);
}

/// The grid shows every day of the selected month.
pub proof fn lemma_grid_shows_the_month(
    cells: Seq<DayCell>,
    selected: Ymd,
    today: Ymd,
    setting: int,
    day: int,
)
    requires
        selected.valid(),
        is_grid(cells, grid_first(selected, setting), selected, today),
        1 <= day <= days_in_month(selected.year, selected.month),
    ensures
        ({
            let start = selected.first_of_month();
            let i = days_into_week(start, weekday_of_setting(setting)) + day - 1;
            &&& 0 <= i < cells.len()
            &&& cells[i].date@ == selected.with_day(day)
            &&& cells[i].is_month
        }),
{
    let start = selected.first_of_month();
    let i = days_into_week(start, weekday_of_setting(setting)) + day - 1;
    assert(0 <= i < 42);
    assert(selected.with_day(day).number() == start.number() + day - 1);
    lemma_day_number_injective(cells[i].date@, selected.with_day(day));
}

/// One month back and then one month on returns to the day it started
/// from, wherever the step back was taken.
pub proof fn lemma_previous_then_next(date: Ymd)
    requires
        date.valid(),
        target_of(date, CalendarMessage::PreviousMonth).is_some(),
    ensures
        navigate(navigate(date, CalendarMessage::PreviousMonth), CalendarMessage::NextMonth)
            == date,
{
}

/// One month on and then one month back returns to the day it started
/// from, wherever the step on was taken.
pub proof fn lemma_next_then_previous(date: Ymd)
    requires
        date.valid(),
        target_of(date, CalendarMessage::NextMonth).is_some(),
    ensures
        navigate(navigate(date, CalendarMessage::NextMonth), CalendarMessage::PreviousMonth)
            == date,
{
}

/// Whatever the message, the selection stays a date of the calendar.
pub proof fn lemma_navigate_stays_valid(date: Ymd, message: CalendarMessage)
    requires
        date.valid(),
    ensures
        navigate(date, message).valid(),
{
}

} // verus!
