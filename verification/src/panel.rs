//! What the panel button shows: one line of text on a horizontal panel,
//! a stack of short pieces on a vertical one.
//!
//! A template, where one is configured and can be expanded, decides the
//! text alone. Otherwise the configuration selects the fields, and the
//! locale writes them. The weekday is shown exactly where both the date
//! and the weekday are switched on, on either panel.

use crate::config::TimeAppletConfig;
use crate::format::{
    create_datetime, date_part, date_part_of, field_set_text, localized, maybe_strftime,
    template_text, time_part, time_part_of, DatePart, FieldSet, TimePart,
};
use crate::instant::{Instant, InstantModel};
use crate::localize::{string_view, text_of};
use crate::text::{fields_of_all, split_words, split_words_and_colons, views, words};
use vstd::prelude::*;

verus! {

/// One element of the stack on a vertical panel.
#[derive(Debug, Clone, PartialEq, Eq)]
pub enum PanelPiece {
    /// A short text on a line of its own.
    Text(String),
    /// The rule between date and time.
    Rule,
}

/// A piece of the stack, as plain text.
pub enum PieceModel {
    Text(Seq<char>),
    Rule,
}

impl View for PanelPiece {
    type V = PieceModel;

    open spec fn view(&self) -> PieceModel {
        match self {
            PanelPiece::Text(s) => PieceModel::Text(s@),
            PanelPiece::Rule => PieceModel::Rule,
        }
    }
}

/// What the panel button shows.
#[derive(Debug, Clone, PartialEq, Eq)]
pub enum PanelContent {
    /// One line, for a panel at the top or bottom.
    Row(String),
    /// A stack, for a panel at the left or right.
    Column(Vec<PanelPiece>),
}

/// The content of a panel, as plain text.
pub enum ContentModel {
    Row(Seq<char>),
    Column(Seq<PieceModel>),
}

/// The views of a list of pieces.
pub open spec fn piece_views(list: Seq<PanelPiece>) -> Seq<PieceModel> {
    Seq::new(list.len(), |i: int| list[i]@)
}

impl View for PanelContent {
    type V = ContentModel;

    open spec fn view(&self) -> ContentModel {
        match self {
            PanelContent::Row(s) => ContentModel::Row(s@),
            PanelContent::Column(list) => ContentModel::Column(piece_views(list@)),
        }
    }
}

/// The fields of the one line on a horizontal panel: the date as the
/// configuration has it, and the time.
pub open spec fn horizontal_fields_of(config: TimeAppletConfig) -> FieldSet {
    FieldSet {
        date: date_part_of(config),
        time: time_part_of(config),
        hour23: config.military_time,
    }
}

/// The fields of the date on a vertical panel.
pub open spec fn vertical_date_fields_of(config: TimeAppletConfig) -> FieldSet {
    FieldSet { date: date_part_of(config), time: TimePart::Omitted, hour23: config.military_time }
}

/// The fields of the time on a vertical panel.
pub open spec fn vertical_time_fields_of(config: TimeAppletConfig) -> FieldSet {
    FieldSet { date: DatePart::Omitted, time: time_part_of(config), hour23: config.military_time }
}

/// The line on a horizontal panel: the template's text where there is
/// one, else the localized date and time. Nothing where neither can be
/// written.
pub open spec fn horizontal_text(now: InstantModel, config: TimeAppletConfig, locale: Seq<char>)
    -> Option<Seq<char>> {
    match template_text(config.format_strftime@, now) {
        Some(text) => Some(text),
        None => field_set_text(locale, horizontal_fields_of(config), now),
    }
}

/// Each text as a piece.
pub open spec fn text_pieces(list: Seq<Seq<char>>) -> Seq<PieceModel> {
    Seq::new(list.len(), |i: int| PieceModel::Text(list[i]))
}

/// The stack made of the rendered texts: the words of the template's
/// text where there is one; else the words of the date, if it is shown,
/// with a rule below them, and then the time parted at white space and
/// at colons.
pub open spec fn stacked(
    custom: Option<Seq<char>>,
    date_text: Option<Seq<char>>,
    time_text: Seq<char>,
) -> Seq<PieceModel> {
    match custom {
        Some(text) => text_pieces(words(text)),
        None => {
            let date_pieces = match date_text {
                Some(text) => text_pieces(words(text)).push(PieceModel::Rule),
                None => Seq::empty(),
            };
            date_pieces + text_pieces(fields_of_all(words(time_text)))
        },
    }
}

/// The stack on a vertical panel. Nothing where there is no template text
/// and the locale cannot write the date or the time.
pub open spec fn vertical_stack(now: InstantModel, config: TimeAppletConfig, locale: Seq<char>)
    -> Option<Seq<PieceModel>> {
    let custom = template_text(config.format_strftime@, now);
    let date_text = field_set_text(locale, vertical_date_fields_of(config), now);
    let time_text = field_set_text(locale, vertical_time_fields_of(config), now);
    if custom is Some {
        Some(stacked(custom, None, Seq::empty()))
    } else if time_text is None || (config.show_date_in_top_panel && date_text is None) {
        None
    } else if config.show_date_in_top_panel {
        Some(stacked(None, date_text, time_text->0))
    } else {
        Some(stacked(None, None, time_text->0))
    }
}

/// What a panel shows: the line where it is horizontal, else the stack.
pub open spec fn content_of(
    now: InstantModel,
    config: TimeAppletConfig,
    locale: Seq<char>,
    horizontal: bool,
) -> Option<ContentModel> {
    if horizontal {
        match horizontal_text(now, config, locale) {
            Some(text) => Some(ContentModel::Row(text)),
            None => None,
        }
    } else {
        match vertical_stack(now, config, locale) {
            Some(list) => Some(ContentModel::Column(list)),
            None => None,
        }
    }
}

/// The view of an optional stack.
pub open spec fn stack_view(value: Option<Vec<PanelPiece>>) -> Option<Seq<PieceModel>> {
    match value {
        Some(list) => Some(piece_views(list@)),
        None => None,
    }
}

/// The view of an optional content.
pub open spec fn content_view(value: Option<PanelContent>) -> Option<ContentModel> {
    match value {
        Some(content) => Some(content@),
        None => None,
    }
}

/// The fields of the one line on a horizontal panel.
pub fn horizontal_fields(config: &TimeAppletConfig) -> (fields: FieldSet)
    ensures
        fields == horizontal_fields_of(*config),
{
    FieldSet { date: date_part(config), time: time_part(config), hour23: config.military_time }
}

/// Create the text of a horizontal panel.
pub fn horizontal_layout(now: &Instant, config: &TimeAppletConfig, locale: &str) -> (r: Option<
    String,
>)
    ensures
        string_view(r) == horizontal_text(now@, *config, locale@),
{
    match maybe_strftime(now, config.format_strftime.as_str()) {
        Some(text) => Some(text),
        None => localized(locale, horizontal_fields(config), &create_datetime(&now.date(), now)),
    }
}

/// Appends each text of a list to a stack, as a piece.
fn push_texts(stack: &mut Vec<PanelPiece>, list: &Vec<String>)
    ensures
        piece_views(final(stack)@) == piece_views(old(stack)@) + text_pieces(views(list@)),
{
    let mut i: usize = 0;
    assert(piece_views(stack@) + text_pieces(views(list@)).take(0) =~= piece_views(stack@));
    while i < list.len()
        invariant
            i <= list.len(),
            piece_views(stack@) == piece_views(old(stack)@) + text_pieces(views(list@)).take(
                i as int,
            ),
        decreases list.len() - i,
    {
        let ghost before = piece_views(stack@);
        stack.push(PanelPiece::Text(list[i].as_str().to_owned()));
        assert(piece_views(stack@) =~= before.push(PieceModel::Text(list[i as int]@)));
        assert(text_pieces(views(list@)).take(i as int).push(PieceModel::Text(list[i as int]@))
            =~= text_pieces(views(list@)).take(i + 1));
        i += 1;
    }
    assert(text_pieces(views(list@)).take(list.len() as int) =~= text_pieces(views(list@)));
}

/// Builds the stack of a vertical panel from the texts that were
/// rendered: the template's text, the date and the time.
pub fn vertical_pieces(custom: Option<&str>, date_text: Option<&str>, time_text: &str) -> (stack:
    Vec<PanelPiece>)
    ensures
        piece_views(stack@) == stacked(text_of(custom), text_of(date_text), time_text@),
{
    let mut stack: Vec<PanelPiece> = Vec::new();
    assert(piece_views(stack@) =~= Seq::<PieceModel>::empty());
    match custom {
        Some(text) => {
            let list = split_words(text);
            push_texts(&mut stack, &list);
            assert(piece_views(stack@) =~= text_pieces(words(text@)));
        },
        None => {
            if let Some(text) = date_text {
                let list = split_words(text);
                push_texts(&mut stack, &list);
                let ghost before = piece_views(stack@);
                stack.push(PanelPiece::Rule);
                assert(piece_views(stack@) =~= before.push(PieceModel::Rule));
                assert(before =~= text_pieces(words(text@)));
            }
            let list = split_words_and_colons(time_text);
            push_texts(&mut stack, &list);
        },
    }
    stack
}

/// Create the stack of a vertical panel.
pub fn vertical_layout(now: &Instant, config: &TimeAppletConfig, locale: &str) -> (r: Option<
    Vec<PanelPiece>,
>)
    ensures
        stack_view(r) == vertical_stack(now@, *config, locale@),
{
    if let Some(text) = maybe_strftime(now, config.format_strftime.as_str()) {
        return Some(vertical_pieces(Some(text.as_str()), None, ""));
    }
    let hour23 = config.military_time;
    let input = create_datetime(&now.date(), now);
    let date_text = if config.show_date_in_top_panel {
        let fields = FieldSet { date: date_part(config), time: TimePart::Omitted, hour23 };
        match localized(locale, fields, &input) {
            Some(text) => Some(text),
            None => {
                return None;
            },
        }
    } else {
        None
    };
    let fields = FieldSet { date: DatePart::Omitted, time: time_part(config), hour23 };
    let time_text = match localized(locale, fields, &input) {
        Some(text) => text,
        None => {
            return None;
        },
    };
    match date_text {
        Some(text) => Some(vertical_pieces(None, Some(text.as_str()), time_text.as_str())),
        None => Some(vertical_pieces(None, None, time_text.as_str())),
    }
}

/// What the panel button shows: the line of a horizontal panel or the
/// stack of a vertical one.
pub fn view(now: &Instant, config: &TimeAppletConfig, locale: &str, horizontal: bool) -> (r:
    Option<PanelContent>)
    ensures
        content_view(r) == content_of(now@, *config, locale@, horizontal),
{
    if horizontal {
        match horizontal_layout(now, config, locale) {
            Some(text) => Some(PanelContent::Row(text)),
            None => None,
        }
    } else {
        match vertical_layout(now, config, locale) {
            Some(stack) => Some(PanelContent::Column(stack)),
            None => None,
        }
    }
}

/// Rendering has no hidden state: whatever two renderings of one instant
/// under one configuration and one locale give, they give the same.
pub proof fn lemma_rendering_repeats(
    first: Option<ContentModel>,
    second: Option<ContentModel>,
    now: InstantModel,
    config: TimeAppletConfig,
    locale: Seq<char>,
    horizontal: bool,
)
    requires
        first == content_of(now, config, locale, horizontal),
        second == content_of(now, config, locale, horizontal),
    ensures
        first == second,
{
}

/// A template that can be expanded decides the text alone: neither the
/// locale nor the other settings change the line.
pub proof fn lemma_template_is_authoritative(
    now: InstantModel,
    config: TimeAppletConfig,
    other: TimeAppletConfig,
    locale: Seq<char>,
    other_locale: Seq<char>,
)
    requires
        config.format_strftime@ == other.format_strftime@,
        template_text(config.format_strftime@, now) is Some,
    ensures
        horizontal_text(now, config, locale) == horizontal_text(now, other, other_locale),
        vertical_stack(now, config, locale) == vertical_stack(now, other, other_locale),
{
}

} // verus!
