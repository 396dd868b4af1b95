//! Time-tracking and formatting core of a desktop panel clock.
//!
//! The library holds the rules: when the clock ticks, what an event does
//! to the time and the calendar on show, and which text the panel gets.
//! Timers, the system's signals and the widgets belong to the program
//! around it.

use vstd::prelude::*;

pub mod calendar;
pub mod config;
pub mod date;
pub mod format;
pub mod instant;
pub mod localize;
pub mod panel;
pub mod paths;
pub mod subscriptions;
pub mod text;
pub mod ticker;
pub mod timezone;
pub mod window;

verus! {

/// A tab of the popup.
#[derive(Debug, Clone, Copy, PartialEq, Eq, Structural)]
pub enum Tab {
    Calendar,
    Weather,
    Timer,
}

impl Tab {
    /// The name of this tab's symbolic icon.
    pub fn icon_name(&self) -> (name: &'static str)
        ensures
            name@ == (match self {
                Tab::Calendar => "office-calendar-symbolic"@,
                Tab::Weather => "weather-clear-symbolic"@,
                Tab::Timer => "alarm-symbolic"@,
            }),
    {
        match self {
            Tab::Calendar => "office-calendar-symbolic",
            Tab::Weather => "weather-clear-symbolic",
            Tab::Timer => "alarm-symbolic",
        }
    }

    /// The label of this tab.
    pub fn label(&self) -> (label: &'static str)
        ensures
            label@ == (match self {
                Tab::Calendar => "Calendar"@,
                Tab::Weather => "Weather"@,
                Tab::Timer => "Timer"@,
            }),
    {
        match self {
            Tab::Calendar => "Calendar",
            Tab::Weather => "Weather",
            Tab::Timer => "Timer",
        }
    }
}

} // verus!
