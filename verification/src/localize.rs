//! The locale that dates and times are written in, taken from the values
//! of the environment's locale variables.

use crate::text::{chars_of, find_from, prefix_before, string_of};
use icu::locale::Locale;
use vstd::prelude::*;

verus! {

/// Whether ICU reads the text as a locale identifier.
pub uninterp spec fn locale_parses(tag: Seq<char>) -> bool;

/// `Locale::try_from_str`: whether the text is a well-formed locale
/// identifier.
#[verifier::external_body]
fn icu_locale_parses(tag: &str) -> (ok: bool)
    ensures
        ok == locale_parses(tag@),
{
    Locale::try_from_str(tag).is_ok()
}

/// The text with every underscore turned into a hyphen.
pub open spec fn hyphenated(s: Seq<char>) -> Seq<char> {
    Seq::new(
        s.len(),
        |i: int|
            if s[i] == '_' {
                '-'
            } else {
                s[i]
            },
    )
}

/// A locale variable's value without its encoding suffix, in the form of
/// a locale identifier: what stands before the first dot, with hyphens
/// for underscores.
pub open spec fn cleaned(raw: Seq<char>) -> Seq<char> {
    hyphenated(prefix_before(raw, '.'))
}

/// The language of a cleaned value: what stands before its first hyphen.
pub open spec fn language_of(tag: Seq<char>) -> Seq<char> {
    prefix_before(tag, '-')
}

/// The locale picked among a cleaned value and its language, given which
/// of the two reads as a locale: the value first, then the language.
pub open spec fn picked(
    tag: Seq<char>,
    tag_parses: bool,
    language: Seq<char>,
    language_parses: bool,
) -> Option<Seq<char>> {
    if tag_parses {
        Some(tag)
    } else if language_parses {
        Some(language)
    } else {
        None
    }
}

/// The locale that a variable's value gives: the cleaned value where ICU
/// reads it, else its language alone where ICU reads that, else nothing.
pub open spec fn locale_of_value(raw: Seq<char>) -> Option<Seq<char>> {
    let tag = cleaned(raw);
    picked(tag, locale_parses(tag), language_of(tag), locale_parses(language_of(tag)))
}

/// The locale that an unset or set variable gives.
pub open spec fn locale_of_variable(value: Option<Seq<char>>) -> Option<Seq<char>> {
    match value {
        Some(raw) => locale_of_value(raw),
        None => None,
    }
}

/// The system's locale: that of the first of `LC_TIME`, `LC_ALL` and
/// `LANG` that gives one, and `en-US` where none does.
pub open spec fn system_locale(
    lc_time: Option<Seq<char>>,
    lc_all: Option<Seq<char>>,
    lang: Option<Seq<char>>,
) -> Seq<char> {
    if let Some(tag) = locale_of_variable(lc_time) {
        tag
    } else if let Some(tag) = locale_of_variable(lc_all) {
        tag
    } else if let Some(tag) = locale_of_variable(lang) {
        tag
    } else {
        "en-US"@
    }
}

/// The view of an optional text.
pub open spec fn text_of(value: Option<&str>) -> Option<Seq<char>> {
    match value {
        Some(s) => Some(s@),
        None => None,
    }
}

/// The view of an optional string.
pub open spec fn string_view(value: Option<String>) -> Option<Seq<char>> {
    match value {
        Some(s) => Some(s@),
        None => None,
    }
}

/// Cleans a locale variable's value: drops the encoding suffix and writes
/// hyphens for underscores.
pub fn clean_locale(raw: &str) -> (tag: String)
    ensures
        tag@ == cleaned(raw@),
{
    let chars = chars_of(raw);
    assert(chars@.skip(0) == chars@);
    let end: usize = find_from(&chars, 0, '.');
    let mut tag = String::new();
    let mut i: usize = 0;
    while i < end
        invariant
            i <= end <= chars.len(),
            tag@ == hyphenated(chars@.take(end as int)).take(i as int),
        decreases end - i,
    {
        let c: char = chars[i];
        if c == '_' {
            tag.push('-');
        } else {
            tag.push(c);
        }
        assert(hyphenated(chars@.take(end as int)).take(i as int).push(
            hyphenated(chars@.take(end as int))[i as int],
        ) == hyphenated(chars@.take(end as int)).take(i + 1));
        i += 1;
    }
    assert(hyphenated(chars@.take(end as int)).take(end as int) == hyphenated(
        chars@.take(end as int),
    ));
    tag
}

/// The language of a cleaned value.
pub fn language_only(tag: &str) -> (language: String)
    ensures
        language@ == language_of(tag@),
{
    let chars = chars_of(tag);
    assert(chars@.skip(0) == chars@);
    let end: usize = find_from(&chars, 0, '-');
    assert(chars@.take(end as int) == chars@.subrange(0, end as int));
    string_of(&chars, 0, end)
}

/// Picks the locale among a cleaned value and its language, given which
/// of the two reads as a locale.
pub fn pick_locale(tag: String, tag_parses: bool, language: String, language_parses: bool) -> (r:
    Option<String>)
    ensures
        string_view(r) == picked(tag@, tag_parses, language@, language_parses),
{
    if tag_parses {
        Some(tag)
    } else if language_parses {
        Some(language)
    } else {
        None
    }
}

/// The locale that a variable's value gives.
pub fn locale_from_value(raw: &str) -> (r: Option<String>)
    ensures
        string_view(r) == locale_of_value(raw@),
{
    let tag = clean_locale(raw);
    let language = language_only(tag.as_str());
    let tag_parses = icu_locale_parses(tag.as_str());
    let language_parses = icu_locale_parses(language.as_str());
    pick_locale(tag, tag_parses, language, language_parses)
}

/// The locale that an unset or set variable gives.
fn locale_from_variable(value: Option<&str>) -> (r: Option<String>)
    ensures
        string_view(r) == locale_of_variable(text_of(value)),
{
    match value {
        Some(raw) => locale_from_value(raw),
        None => None,
    }
}

/// Get the system locale from the values of the environment variables
/// `LC_TIME`, `LC_ALL` and `LANG`, each `None` where the variable is not
/// set: the first that gives a locale decides, and `en-US` stands in
/// where none does.
pub fn get_system_locale(lc_time: Option<&str>, lc_all: Option<&str>, lang: Option<&str>) -> (tag:
    String)
    ensures
        tag@ == system_locale(text_of(lc_time), text_of(lc_all), text_of(lang)),
{
    if let Some(tag) = locale_from_variable(lc_time) {
        return tag;
    }
    if let Some(tag) = locale_from_variable(lc_all) {
        return tag;
    }
    if let Some(tag) = locale_from_variable(lang) {
        return tag;
    }
    "en-US".to_owned()
}

} // verus!
