//! The applet's state and what each event does to it.
//!
//! One owner holds the state and applies the events in the order in which
//! they arrive. Reading the clock, opening windows and running timers is
//! the caller's part: it hands over what it read and carries out the
//! effect that comes back.

use crate::calendar::{navigate, target_of, CalendarMessage, CalendarState};
use crate::config::TimeAppletConfig;
use crate::instant::{seconds_in_range, ClockReading, Instant, SECONDS_PER_DAY};
use crate::ticker::{effective_granularity, reconcile_granularity, TickGranularity};
use crate::timezone::{tz_is_known, tz_offset_seconds, zone_time_exists, TimezoneName};
use crate::Tab;
use vstd::prelude::*;

verus! {

/// An event for the state's owner.
#[derive(Debug)]
pub enum Message {
    /// The panel button was pressed.
    TogglePopup,
    /// The window with this id is about to close.
    CloseRequested(u64),
    /// Recompute the displayed time now.
    Tick,
    /// A day of the month on show was picked.
    SelectDay(u32),
    /// The calendar goes one month back.
    PreviousMonth,
    /// The calendar goes one month on.
    NextMonth,
    /// A new configuration snapshot arrived.
    ConfigChanged(TimeAppletConfig),
    /// The system's time zone is the zone of this name.
    TimezoneUpdate(String),
    /// A tab of the popup was chosen.
    TabSelected(Tab),
}

/// What the caller has to do after an event.
#[derive(Clone, Copy, Debug, PartialEq, Eq, Structural)]
pub enum Effect {
    /// Do nothing.
    Nothing,
    /// Open the popup under this id.
    OpenPopup(u64),
    /// Close the popup with this id.
    ClosePopup(u64),
    /// Hand the ticker this granularity.
    SetGranularity(TickGranularity),
    /// Note that a date was asked for that the calendar does not have.
    /// The state is as it was.
    InvalidDate,
}

/// The state of the applet.
#[derive(Debug)]
pub struct Window {
    /// The id of the popup while it is open.
    pub popup: Option<u64>,
    /// The time on show.
    pub now: Instant,
    /// The time zone that the system announced, if it announced one.
    /// Without one, the system's local time is shown.
    pub timezone: Option<TimezoneName>,
    /// Today and the selected day of the popup's calendar.
    pub calendar: CalendarState,
    /// The configuration in force.
    pub config: TimeAppletConfig,
    /// The granularity that the ticker was last asked for.
    pub granularity: TickGranularity,
    /// The locale that texts are written in.
    pub locale: String,
    /// The tab of the popup that is on show.
    pub selected_tab: Tab,
}

/// The offset at which a clock reading is shown: that of the announced
/// zone at that moment, or the system's own.
pub open spec fn offset_shown(zone: Option<Seq<char>>, clock: ClockReading) -> int {
    match zone {
        Some(name) => tz_offset_seconds(name, clock.utc_seconds as int),
        None => clock.local_offset_seconds as int,
    }
}

/// Whether a clock reading can be shown: its local time is a time of the
/// calendar.
pub open spec fn can_show(zone: Option<Seq<char>>, clock: ClockReading) -> bool {
    match zone {
        Some(name) => zone_time_exists(name, clock.utc_seconds as int),
        None => {
            &&& -SECONDS_PER_DAY < clock.local_offset_seconds < SECONDS_PER_DAY
            &&& seconds_in_range(clock.utc_seconds + clock.local_offset_seconds)
        },
    }
}

/// Whether `instant` shows a clock reading, in the announced zone or in
/// system local time.
pub open spec fn shows(instant: Instant, zone: Option<Seq<char>>, clock: ClockReading) -> bool {
    &&& instant@.wf()
    &&& instant@.utc_seconds == clock.utc_seconds
    &&& instant@.offset_seconds == offset_shown(zone, clock)
}

/// The name of an optional zone.
pub open spec fn zone_name(zone: Option<TimezoneName>) -> Option<Seq<char>> {
    match zone {
        Some(name) => Some(name@),
        None => None,
    }
}

impl Window {
    /// The state after a tick: the time on show is replaced by the clock
    /// reading, and nothing else changes. A reading that cannot be shown
    /// changes nothing.
    pub open spec fn ticked(self, clock: ClockReading, after: Window) -> bool {
        if can_show(zone_name(self.timezone), clock) {
            &&& shows(after.now, zone_name(self.timezone), clock)
            &&& after == Window { now: after.now, ..self }
        } else {
            after == self
        }
    }

    /// The state after the system announced the zone `name`: where the
    /// name is a zone's and the clock reading can be shown in it, the
    /// zone is kept, the time on show is the reading in that zone, and
    /// the calendar is reset to that time's date. Otherwise nothing
    /// changes.
    pub open spec fn zone_announced(self, name: Seq<char>, clock: ClockReading, after: Window)
        -> bool {
        if zone_time_exists(name, clock.utc_seconds as int) {
            &&& zone_name(after.timezone) == Some(name)
            &&& shows(after.now, Some(name), clock)
            &&& after.calendar.date_today@ == after.now@.date
            &&& after.calendar.date_selected@ == after.now@.date
            &&& after == Window {
                now: after.now,
                timezone: after.timezone,
                calendar: after.calendar,
                ..self
            }
        } else {
            after == self
        }
    }

    /// The state after the popup opened: the calendar shows today, the
    /// date of the time on show, whatever was selected before.
    pub open spec fn popup_opened(self, after: Window) -> bool {
        &&& after.calendar.date_today@ == self.now@.date
        &&& after.calendar.date_selected@ == self.now@.date
        &&& after == Window { calendar: after.calendar, ..self }
    }

    /// The state after a step in the calendar.
    pub open spec fn navigated(self, message: CalendarMessage, after: Window) -> bool {
        &&& after.calendar.date_today == self.calendar.date_today
        &&& after.calendar.date_selected@ == navigate(self.calendar.date_selected@, message)
        &&& after == Window { calendar: after.calendar, ..self }
    }

    /// The ticker is asked for a tick every second whenever the template
    /// in force shows seconds.
    pub open spec fn ticks_often_enough(self) -> bool {
        crate::ticker::has_seconds_specifier(self.config.format_strftime@) ==> self.granularity
            == TickGranularity::PerSecond
    }

    /// The granularity that a configuration asks the ticker for.
    pub open spec fn granularity_for(self, config: TimeAppletConfig) -> TickGranularity {
        effective_granularity(self.granularity, config.show_seconds, config.format_strftime@)
    }

    /// Starts the applet at a clock reading, with the default
    /// configuration, no announced zone, a closed popup whose calendar
    /// shows today, and a tick every second. Nothing where the reading
    /// cannot be shown.
    pub fn init(clock: ClockReading, locale: String) -> (r: Option<Window>)
        ensures
            r is Some <==> can_show(None, clock),
            r matches Some(window) ==> {
                &&& shows(window.now, None, clock)
                &&& window.popup is None
                &&& window.timezone is None
                &&& window.calendar.date_today@ == window.now@.date
                &&& window.calendar.date_selected@ == window.now@.date
                &&& window.granularity == TickGranularity::PerSecond
                &&& window.locale == locale
                &&& window.selected_tab == Tab::Calendar
                &&& window.config.show_date_in_top_panel
                &&& !window.config.show_weekday
                &&& !window.config.military_time
                &&& !window.config.show_seconds
                &&& window.config.first_day_of_week == 0
                &&& window.config.format_strftime@ == Seq::<char>::empty()
                &&& window.ticks_often_enough()
            },
    {
        match Instant::from_timestamp(clock.utc_seconds, clock.local_offset_seconds) {
            Some(now) => Some(
                Window {
                    popup: None,
                    now,
                    timezone: None,
                    calendar: CalendarState::new(&now),
                    config: TimeAppletConfig::default(),
                    granularity: TickGranularity::PerSecond,
                    locale,
                    selected_tab: Tab::Calendar,
                },
            ),
            None => None,
        }
    }

    /// Recomputes the time on show from the clock, in the announced zone
    /// or, without one, in system local time.
    pub fn on_tick(&mut self, clock: ClockReading)
        ensures
            old(self).ticked(clock, *final(self)),
    {
        let instant = match &self.timezone {
            Some(zone) => zone.instant_at(clock.utc_seconds),
            None => Instant::from_timestamp(clock.utc_seconds, clock.local_offset_seconds),
        };
        if let Some(now) = instant {
            self.now = now;
        }
    }

    /// Takes over the time zone that the system announced. A name that is
    /// no zone's is ignored: the zone in force, the time on show and the
    /// calendar stay as they are.
    pub fn on_timezone_update(&mut self, name: &str, clock: ClockReading) -> (applied: bool)
        ensures
            old(self).zone_announced(name@, clock, *final(self)),
            applied == zone_time_exists(name@, clock.utc_seconds as int),
            !tz_is_known(name@) ==> *final(self) == *old(self),
    {
        let zone = match TimezoneName::parse(name) {
            Some(zone) => zone,
            None => {
                return false;
            },
        };
        match zone.instant_at(clock.utc_seconds) {
            Some(now) => {
                self.now = now;
                self.calendar = CalendarState::new(&now);
                self.timezone = Some(zone);
                true
            },
            None => false,
        }
    }

    /// Resets the calendar to today when the popup opens, dropping what
    /// was selected while it was open before.
    pub fn on_popup_open(&mut self)
        ensures
            old(self).popup_opened(*final(self)),
    {
        self.calendar = CalendarState::new(&self.now);
    }

    /// Steps the selected day one month back or on. Where the month has
    /// no such day, the selection stays.
    pub fn on_navigate(&mut self, direction: CalendarMessage) -> (moved: bool)
        ensures
            old(self).navigated(direction, *final(self)),
            moved == target_of(old(self).calendar.date_selected@, direction).is_some(),
            !moved ==> *final(self) == *old(self),
    {
        self.calendar.update(direction)
    }

    /// Selects a day of the month on show. Where the month has no such
    /// day, the selection stays.
    pub fn on_select_day(&mut self, day: u32) -> (moved: bool)
        ensures
            old(self).navigated(CalendarMessage::SelectDay(day), *final(self)),
            moved == target_of(
                old(self).calendar.date_selected@,
                CalendarMessage::SelectDay(day),
            ).is_some(),
            !moved ==> *final(self) == *old(self),
    {
        self.calendar.update(CalendarMessage::SelectDay(day))
    }

    /// Opens the popup under `fresh_id` where it is closed, with the
    /// calendar reset to today; closes it where it is open.
    pub fn toggle_popup(&mut self, fresh_id: u64) -> (effect: Effect)
        ensures
            match old(self).popup {
                Some(id) => effect == Effect::ClosePopup(id) && *final(self) == (Window {
                    popup: None,
                    ..*old(self)
                }),
                None => effect == Effect::OpenPopup(fresh_id) && (Window {
                    popup: Some(fresh_id),
                    ..*old(self)
                }).popup_opened(*final(self)),
            },
    {
        match self.popup {
            Some(id) => {
                self.popup = None;
                Effect::ClosePopup(id)
            },
            None => {
                self.on_popup_open();
                self.popup = Some(fresh_id);
                Effect::OpenPopup(fresh_id)
            },
        }
    }

    /// Forgets the popup when the window that closes is the popup.
    pub fn close_requested(&mut self, id: u64)
        ensures
            *final(self) == (Window {
                popup: if old(self).popup == Some(id) {
                    None
                } else {
                    old(self).popup
                },
                ..*old(self)
            }),
    {
        if self.popup == Some(id) {
            self.popup = None;
        }
    }

    /// Takes over a configuration snapshot whole, and tells the ticker
    /// only where the granularity changes.
    pub fn on_config_changed(&mut self, config: TimeAppletConfig) -> (effect: Effect)
        ensures
            final(self).config == config,
            final(self).granularity == old(self).granularity_for(config),
            *final(self) == (Window {
                config,
                granularity: final(self).granularity,
                ..*old(self)
            }),
            effect == (if final(self).granularity == old(self).granularity {
                Effect::Nothing
            } else {
                Effect::SetGranularity(final(self).granularity)
            }),
    {
        let next = reconcile_granularity(
            self.granularity,
            config.show_seconds,
            config.format_strftime.as_str(),
        );
        let changed = next != self.granularity;
        self.granularity = next;
        self.config = config;
        if changed {
            Effect::SetGranularity(next)
        } else {
            Effect::Nothing
        }
    }

    /// What an event does to the state, and the effect it asks for.
    pub open spec fn stepped(
        self,
        message: Message,
        clock: ClockReading,
        fresh_id: u64,
        after: Window,
        effect: Effect,
    ) -> bool {
        match message {
            Message::TogglePopup => match self.popup {
                Some(id) => effect == Effect::ClosePopup(id) && after == (Window {
                    popup: None,
                    ..self
                }),
                None => effect == Effect::OpenPopup(fresh_id) && (Window {
                    popup: Some(fresh_id),
                    ..self
                }).popup_opened(after),
            },
            Message::CloseRequested(id) => effect == Effect::Nothing && after == (Window {
                popup: if self.popup == Some(id) {
                    None
                } else {
                    self.popup
                },
                ..self
            }),
            Message::Tick => effect == Effect::Nothing && self.ticked(clock, after),
            Message::SelectDay(day) => self.selected(CalendarMessage::SelectDay(day), after, effect),
            Message::PreviousMonth => self.selected(CalendarMessage::PreviousMonth, after, effect),
            Message::NextMonth => self.selected(CalendarMessage::NextMonth, after, effect),
            Message::ConfigChanged(config) => {
                &&& after == Window {
                    config,
                    granularity: self.granularity_for(config),
                    ..self
                }
                &&& effect == if after.granularity == self.granularity {
                    Effect::Nothing
                } else {
                    Effect::SetGranularity(after.granularity)
                }
            },
            Message::TimezoneUpdate(name) => effect == Effect::Nothing && self.zone_announced(
                name@,
                clock,
                after,
            ),
            Message::TabSelected(tab) => effect == Effect::Nothing && after == (Window {
                selected_tab: tab,
                ..self
            }),
        }
    }

    /// The state and the effect after a step in the calendar: a step to a
    /// day that the calendar does not have is noted and changes nothing.
    pub open spec fn selected(self, message: CalendarMessage, after: Window, effect: Effect)
        -> bool {
        &&& self.navigated(message, after)
        &&& effect == if target_of(self.calendar.date_selected@, message) is Some {
            Effect::Nothing
        } else {
            Effect::InvalidDate
        }
        &&& effect == Effect::InvalidDate ==> after == self
    }

    /// Applies one event. `clock` is the clock as read for this event, and
    /// `fresh_id` an id that no window has yet.
    pub fn update(&mut self, message: Message, clock: ClockReading, fresh_id: u64) -> (effect:
        Effect)
        ensures
            old(self).stepped(message, clock, fresh_id, *final(self), effect),
    {
        match message {
            Message::TogglePopup => self.toggle_popup(fresh_id),
            Message::CloseRequested(id) => {
                self.close_requested(id);
                Effect::Nothing
            },
            Message::Tick => {
                self.on_tick(clock);
                Effect::Nothing
            },
            Message::SelectDay(day) => effect_of_step(self.on_select_day(day)),
            Message::PreviousMonth => effect_of_step(
                self.on_navigate(CalendarMessage::PreviousMonth),
            ),
            Message::NextMonth => effect_of_step(self.on_navigate(CalendarMessage::NextMonth)),
            Message::ConfigChanged(config) => self.on_config_changed(config),
            Message::TimezoneUpdate(name) => {
                let _ = self.on_timezone_update(name.as_str(), clock);
                Effect::Nothing
            },
            Message::TabSelected(tab) => {
                self.selected_tab = tab;
                Effect::Nothing
            },
        }
    }
}

/// The effect of a step in the calendar.
fn effect_of_step(moved: bool) -> (effect: Effect)
    ensures
        effect == (if moved {
            Effect::Nothing
        } else {
            Effect::InvalidDate
        }),
{
    if moved {
        Effect::Nothing
    } else {
        Effect::InvalidDate
    }
}

/// A name that is no time zone's leaves the announced zone and the time
/// on show as they were, and with them all of the state.
pub proof fn lemma_unknown_zone_is_ignored(
    before: Window,
    name: Seq<char>,
    clock: ClockReading,
    after: Window,
)
    requires
        !tz_is_known(name),
        before.zone_announced(name, clock, after),
    ensures
        after.timezone == before.timezone,
        after.now == before.now,
        after == before,
{
}

/// A configuration whose template holds a seconds specifier asks for a
/// tick every second, whatever its `show_seconds` says.
pub proof fn lemma_seconds_template_ticks_per_second(before: Window, config: TimeAppletConfig)
    requires
        crate::ticker::has_seconds_specifier(config.format_strftime@),
    ensures
        before.granularity_for(config) == TickGranularity::PerSecond,
{
}

/// The time on show is replaced only by a tick and by an announced time
/// zone, the zone in force only by an announced time zone, and the
/// configuration only by a new snapshot.
pub proof fn lemma_who_changes_what(
    before: Window,
    message: Message,
    clock: ClockReading,
    fresh_id: u64,
    after: Window,
    effect: Effect,
)
    requires
        before.stepped(message, clock, fresh_id, after, effect),
    ensures
        !(message is Tick || message is TimezoneUpdate) ==> after.now == before.now,
        !(message is TimezoneUpdate) ==> after.timezone == before.timezone,
        !(message is ConfigChanged) ==> after.config == before.config && after.granularity
            == before.granularity,
        !(message is TogglePopup || message is TimezoneUpdate) ==> after.calendar.date_today@
            == before.calendar.date_today@,
{
}

/// No event makes the clock tick too seldom: where seconds were not
/// missed before an event, they are not missed after it.
pub proof fn lemma_seconds_are_never_missed(
    before: Window,
    message: Message,
    clock: ClockReading,
    fresh_id: u64,
    after: Window,
    effect: Effect,
)
    requires
        before.ticks_often_enough(),
        before.stepped(message, clock, fresh_id, after, effect),
    ensures
        after.ticks_often_enough(),
{
}

/// The same configuration twice asks the ticker at most once: the second
/// time the granularity stays and no effect comes back.
pub proof fn lemma_same_config_twice(
    before: Window,
    config: TimeAppletConfig,
    clock: ClockReading,
    fresh_id: u64,
    once: Window,
    first_effect: Effect,
    twice: Window,
    second_effect: Effect,
)
    requires
        before.stepped(Message::ConfigChanged(config), clock, fresh_id, once, first_effect),
        once.stepped(Message::ConfigChanged(config), clock, fresh_id, twice, second_effect),
    ensures
        second_effect == Effect::Nothing,
        twice == once,
{
}

} // verus!
