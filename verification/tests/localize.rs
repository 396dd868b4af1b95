use cosmic_applet_timeplus::config::{default_lat, default_long, TimeAppletConfig, WeatherConfig};
use cosmic_applet_timeplus::localize::{
    clean_locale, get_system_locale, language_only, locale_from_value, pick_locale,
};

#[test]
fn values_are_cleaned_of_encoding_and_underscores() {
    assert_eq!(clean_locale("en_US.UTF-8"), "en-US");
    assert_eq!(clean_locale("pt_BR"), "pt-BR");
    assert_eq!(clean_locale("de_DE.ISO-8859-1@euro"), "de-DE");
    assert_eq!(clean_locale("C"), "C");
    assert_eq!(clean_locale(""), "");
    assert_eq!(clean_locale(".UTF-8"), "");
    assert_eq!(clean_locale("a_b_c.d_e"), "a-b-c");
}

#[test]
fn language_is_what_stands_before_the_first_hyphen() {
    assert_eq!(language_only("en-US"), "en");
    assert_eq!(language_only("en"), "en");
    assert_eq!(language_only("-x"), "");
    assert_eq!(language_only(""), "");
}

#[test]
fn value_gives_its_locale_or_its_language() {
    assert_eq!(locale_from_value("en_US.UTF-8"), Some(String::from("en-US")));
    assert_eq!(locale_from_value("pt_BR"), Some(String::from("pt-BR")));
    assert_eq!(locale_from_value("fr"), Some(String::from("fr")));
    // Not a locale as a whole, but its language is one.
    assert_eq!(locale_from_value("de_DE@euro"), Some(String::from("de")));
    assert_eq!(locale_from_value("C"), None);
    assert_eq!(locale_from_value("POSIX"), None);
    assert_eq!(locale_from_value(""), None);
}

#[test]
fn first_variable_that_gives_a_locale_decides() {
    assert_eq!(get_system_locale(Some("pt_BR.UTF-8"), Some("de_DE"), Some("fr_FR")), "pt-BR");
    assert_eq!(get_system_locale(None, Some("de_DE"), Some("fr_FR")), "de-DE");
    assert_eq!(get_system_locale(None, None, Some("fr_FR.UTF-8")), "fr-FR");
    assert_eq!(get_system_locale(Some("C"), Some("POSIX"), Some("ja_JP.eucJP")), "ja-JP");
    assert_eq!(get_system_locale(Some(""), None, Some("it")), "it");
}

#[test]
fn fallback_locale_is_en_us() {
    assert_eq!(get_system_locale(None, None, None), "en-US");
    assert_eq!(get_system_locale(Some("C"), Some("C"), Some("C")), "en-US");
}

#[test]
fn configuration_defaults() {
    let config = TimeAppletConfig::default();
    assert!(config.show_date_in_top_panel);
    assert!(!config.show_weekday);
    assert!(!config.military_time);
    assert!(!config.show_seconds);
    assert_eq!(config.first_day_of_week, 0);
    assert_eq!(config.format_strftime, "");
    assert_eq!(config.duplicate(), config);
    let weather = WeatherConfig::default();
    assert_eq!(weather.latitude, "-23.5505");
    assert_eq!(weather.longitude, "-46.6333");
    assert_eq!(default_lat(), "-23.5505");
    assert_eq!(default_long(), "-46.6333");
}

#[test]
fn whole_value_is_picked_before_its_language() {
    let tag = || String::from("de-DE");
    let language = || String::from("de");
    assert_eq!(pick_locale(tag(), true, language(), true), Some(tag()));
    assert_eq!(pick_locale(tag(), true, language(), false), Some(tag()));
    assert_eq!(pick_locale(tag(), false, language(), true), Some(language()));
    assert_eq!(pick_locale(tag(), false, language(), false), None);
}
