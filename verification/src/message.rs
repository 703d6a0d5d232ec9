//! A text shown over the streams.

use std::fmt::Write;
use vstd::prelude::*;
use vstd::std_specs::cmp::PartialEqSpecImpl;
use vstd::string::StrSliceExecFns;
use crate::colors::Color;
use crate::position::centered;
use crate::position::fits;
use crate::position::is_centered_in;
use crate::position::CenteredPosition;
use crate::position::Position;
use crate::position::PositionTrait;
use crate::position::PositionType;

verus! {

/// The text of a message.
#[derive(Debug)]
pub enum TextType {
    /// A fixed text.
    StaticString(String),
    /// The local date and time, written as this format string says.
    CurrentDateTime(String),
}

/// A [`TextType`] with its strings as sequences of characters.
pub enum TextView {
    /// A fixed text.
    StaticString(Seq<char>),
    /// The format of a date and time.
    CurrentDateTime(Seq<char>),
}

impl View for TextType {
    type V = TextView;

    open spec fn view(&self) -> TextView {
        match self {
            TextType::StaticString(text) => TextView::StaticString(text@),
            TextType::CurrentDateTime(format) => TextView::CurrentDateTime(format@),
        }
    }
}

/// Calls chrono's `Local::now` and writes the result of its `format` with
/// `format` into a string. Returns `None` where writing fails, as it does
/// for a format that chrono does not accept. Nothing is claimed of the
/// text: it depends on the clock and on the time zone.
#[verifier::external_body]
fn local_time_text(format: &str) -> (text: Option<String>) {
    let mut text = String::new();
    match write!(text, "{}", chrono::Local::now().format(format)) {
        Ok(()) => Some(text),
        Err(_) => None,
    }
}

impl Clone for TextType {
    fn clone(&self) -> (r: Self)
        ensures
            r == *self,
    {
        match self {
            TextType::StaticString(text) => TextType::StaticString(text.clone()),
            TextType::CurrentDateTime(format) => TextType::CurrentDateTime(format.clone()),
        }
    }
}

impl PartialEq for TextType {
    fn eq(&self, other: &Self) -> (same: bool) {
        self.same_as(other)
    }
}

impl Eq for TextType {

}

impl PartialEqSpecImpl for TextType {
    open spec fn obeys_eq_spec() -> bool {
        true
    }

    open spec fn eq_spec(&self, other: &Self) -> bool {
        self@ == other@
    }
}

impl Default for TextType {
    fn default() -> (r: Self)
        ensures
            r@ == TextView::StaticString(Seq::empty()),
    {
        TextType::StaticString(String::new())
    }
}

impl TextType {
    /// Whether both are the same sort of text with the same characters.
    pub fn same_as(&self, other: &TextType) -> (same: bool)
        ensures
            same == (self@ == other@),
    {
        match (self, other) {
            (TextType::StaticString(a), TextType::StaticString(b)) => *a == *b,
            (TextType::CurrentDateTime(a), TextType::CurrentDateTime(b)) => *a == *b,
            _ => false,
        }
    }

    /// The characters to show: the fixed text itself, or the local date and
    /// time in the given format. `None` when the format cannot be written.
    pub fn to_string(&self) -> (shown: Option<String>)
        ensures
            self@ is StaticString ==> shown.is_some() && shown.unwrap()@
                == self@->StaticString_0,
    {
        match self {
            TextType::StaticString(text) => Some(text.clone()),
            TextType::CurrentDateTime(format) => local_time_text(format.as_str()),
        }
    }
}

/// Whether `cell` lies in the row of `origin`, in one of the `len` columns
/// that start there.
pub open spec fn span_contains(origin: Position, len: int, cell: Position) -> bool {
    cell.y == origin.y && origin.x <= cell.x < origin.x + len
}

/// The character of `shown` that covers `cell` when `shown` starts at
/// `origin`, if any.
pub open spec fn char_in_span(shown: Seq<char>, origin: Position, cell: Position) -> Option<char> {
    if span_contains(origin, shown.len() as int, cell) {
        Some(shown[cell.x - origin.x])
    } else {
        None
    }
}

/// The character of `shown` that covers `cell` when `shown` starts at
/// `origin`, or `None` when `shown` does not reach `cell`.
pub fn shown_char_at(shown: &str, origin: &Position, cell: &Position) -> (r: Option<char>)
    ensures
        r == char_in_span(shown@, *origin, *cell),
{
    if cell.y == origin.y && cell.x >= origin.x {
        let offset: usize = (cell.x - origin.x) as usize;
        if offset < shown.unicode_len() {
            return Some(shown.get_char(offset));
        }
    }
    None
}

/// A message shown on the screen.
#[derive(Debug)]
pub struct Message {
    /// Where the message starts.
    pub position: PositionType,
    /// The lower right corner of the screen.
    pub bounds: Position,
    /// Text of the message.
    pub text: TextType,
    /// Color of the message.
    pub color: Color,
}

impl Clone for Message {
    fn clone(&self) -> (r: Self)
        ensures
            r == *self,
    {
        Message {
            position: self.position.clone(),
            bounds: self.bounds,
            text: self.text.clone(),
            color: self.color,
        }
    }
}

impl PartialEq for Message {
    fn eq(&self, other: &Self) -> (same: bool) {
        self.position == other.position && self.bounds == other.bounds && self.text == other.text
            && self.color == other.color
    }
}

impl Eq for Message {

}

impl PartialEqSpecImpl for Message {
    open spec fn obeys_eq_spec() -> bool {
        true
    }

    open spec fn eq_spec(&self, other: &Self) -> bool {
        &&& self.position.is_same(&other.position)
        &&& self.bounds == other.bounds
        &&& self.text@ == other.text@
        &&& self.color == other.color
    }
}

impl Message {
    /// The fixed text of the message, or `None` for a date and time.
    pub open spec fn static_text(&self) -> Option<Seq<char>> {
        match self.text@ {
            TextView::StaticString(text) => Some(text),
            TextView::CurrentDateTime(_) => None,
        }
    }

    /// Whether the position of the message needs no computing: it is fixed,
    /// or centered for the message's own text and bounds.
    pub open spec fn is_settled(&self) -> bool {
        match self.position {
            PositionType::Static(_) => true,
            PositionType::Center(center) => center.is_current(self.bounds, self.text@),
        }
    }

    /// The message with `text` centered in `bounds`, or `None` when the
    /// text cannot be shown or is longer than a row of `bounds`.
    pub fn new_centered_or_none(bounds: Position, text: TextType, color: Color) -> (r: Option<Self>)
        ensures
            text@ is StaticString ==> r.is_some() == fits(bounds, text@->StaticString_0.len() as int),
            text@ is StaticString && r.is_some() ==> r.unwrap().position.place() == centered(
                bounds,
                text@->StaticString_0.len() as int,
            ),
            r.is_some() ==> {
                &&& is_centered_in(r.unwrap().position.place(), bounds)
                &&& r.unwrap().position is Center
                &&& r.unwrap().is_settled()
                &&& r.unwrap().bounds == bounds
                &&& r.unwrap().text@ == text@
                &&& r.unwrap().color == color
            },
    {
        match CenteredPosition::new(&bounds, &text) {
            Some(center) => Some(
                Message { position: PositionType::Center(center), bounds, text, color },
            ),
            None => None,
        }
    }

    /// Whether `other_position` is one of the cells that the message
    /// covers. A message whose text cannot be shown covers none.
    pub fn is_position_inside_message(&self, other_position: &Position) -> (inside: bool)
        ensures
            inside ==> other_position.y == self.position.place().y && self.position.place().x
                <= other_position.x,
            self.static_text().is_some() ==> inside == span_contains(
                self.position.place(),
                self.static_text().unwrap().len() as int,
                *other_position,
            ),
    {
        self.get_char_in_position(other_position).is_some()
    }

    /// The character of the message that covers `other_position`, or `None`
    /// where the message does not cover it.
    pub fn get_char_in_position(&self, other_position: &Position) -> (r: Option<char>)
        ensures
            r.is_some() ==> other_position.y == self.position.place().y
                && self.position.place().x <= other_position.x,
            self.static_text().is_some() ==> r == char_in_span(
                self.static_text().unwrap(),
                self.position.place(),
                *other_position,
            ),
    {
        match self.text.to_string() {
            Some(shown) => {
                let origin = Position::new(self.position.x(), self.position.y());
                shown_char_at(shown.as_str(), &origin, other_position)
            },
            None => None,
        }
    }

    /// Brings the position up to date with the message's text and bounds.
    /// Returns `false`, and changes nothing, when the text cannot be
    /// centered.
    pub fn update_position(&mut self) -> (ok: bool)
        ensures
            old(self).is_settled() ==> ok && *final(self) == *old(self),
            !ok ==> *final(self) == *old(self),
            ok ==> final(self).is_settled(),
            final(self).bounds == old(self).bounds,
            final(self).text == old(self).text,
            final(self).color == old(self).color,
            (old(self).position is Center) == (final(self).position is Center),
            !old(self).is_settled() && old(self).static_text().is_some() ==> ok == fits(
                old(self).bounds,
                old(self).static_text().unwrap().len() as int,
            ),
            !old(self).is_settled() && old(self).static_text().is_some() && ok
                ==> final(self).position.place() == centered(
                old(self).bounds,
                old(self).static_text().unwrap().len() as int,
            ),
            !old(self).is_settled() && ok ==> is_centered_in(
                final(self).position.place(),
                old(self).bounds,
            ),
    {
        self.position.update(&self.bounds, &self.text)
    }
}

/// A message covers a cell exactly where it has a character for it, and
/// that character is the one as far into the text as the cell is to the
/// right of the message's first cell.
pub proof fn lemma_covered_cells_have_characters(shown: Seq<char>, origin: Position, cell: Position)
    ensures
        span_contains(origin, shown.len() as int, cell) <==> char_in_span(
            shown,
            origin,
            cell,
        ).is_some(),
        span_contains(origin, shown.len() as int, cell) ==> 0 <= cell.x - origin.x < shown.len()
            && char_in_span(shown, origin, cell) == Some(shown[cell.x - origin.x]),
{
}

} // verus!
