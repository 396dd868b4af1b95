//! Configuration snapshots, as the settings store hands them over.

use vstd::prelude::*;

verus! {

/// How the clock is shown in the panel.
#[derive(Debug, Clone, PartialEq)]
pub struct TimeAppletConfig {
    /// Show the date in the top panel.
    pub show_date_in_top_panel: bool,
    /// Show the weekday in the top panel.
    pub show_weekday: bool,
    /// Use the 24-hour clock.
    pub military_time: bool,
    /// Show seconds in the time display.
    pub show_seconds: bool,
    /// First day of the week: 0 is Sunday, 1 is Monday, up to 6 for
    /// Saturday.
    pub first_day_of_week: u8,
    /// Custom strftime template. Where it is not empty it replaces the
    /// other display settings.
    pub format_strftime: String,
}

impl Default for TimeAppletConfig {
    /// Date and 12-hour time without seconds, weeks from Sunday, no template.
    fn default() -> (config: TimeAppletConfig)
        ensures
            config.show_date_in_top_panel,
            !config.show_weekday,
            !config.military_time,
            !config.show_seconds,
            config.first_day_of_week == 0,
            config.format_strftime@ == Seq::<char>::empty(),
    {
        TimeAppletConfig {
            show_date_in_top_panel: true,
            show_weekday: false,
            military_time: false,
            show_seconds: false,
            first_day_of_week: 0,
            format_strftime: String::new(),
        }
    }
}

impl TimeAppletConfig {
    /// A copy of this configuration.
    pub fn duplicate(&self) -> (copy: TimeAppletConfig)
        ensures
            copy.show_date_in_top_panel == self.show_date_in_top_panel,
            copy.show_weekday == self.show_weekday,
            copy.military_time == self.military_time,
            copy.show_seconds == self.show_seconds,
            copy.first_day_of_week == self.first_day_of_week,
            copy.format_strftime@ == self.format_strftime@,
    {
        TimeAppletConfig {
            show_date_in_top_panel: self.show_date_in_top_panel,
            show_weekday: self.show_weekday,
            military_time: self.military_time,
            show_seconds: self.show_seconds,
            first_day_of_week: self.first_day_of_week,
            format_strftime: self.format_strftime.as_str().to_owned(),
        }
    }
}

/// Where the weather is shown for.
#[derive(Debug, Clone, PartialEq)]
pub struct WeatherConfig {
    pub latitude: String,
    pub longitude: String,
}

impl Default for WeatherConfig {
    /// The default place.
    fn default() -> (config: WeatherConfig)
        ensures
            config.latitude@ == "-23.5505"@,
            config.longitude@ == "-46.6333"@,
    {
        WeatherConfig { latitude: default_lat(), longitude: default_long() }
    }
}

/// Latitude of the default place.
pub fn default_lat() -> (latitude: String)
    ensures
        latitude@ == "-23.5505"@,
{
    "-23.5505".to_owned()
}

/// Longitude of the default place.
pub fn default_long() -> (longitude: String)
    ensures
        longitude@ == "-46.6333"@,
{
    "-46.6333".to_owned()
}

} // verus!
