//! Cells of the terminal grid, and the place of a centered text.

use vstd::prelude::*;
use vstd::std_specs::cmp::PartialEqSpecImpl;
use vstd::string::StrSliceExecFns;
use crate::message::TextType;
use crate::message::TextView;

verus! {

/// A cell of the terminal grid. Columns and rows count from 1.
#[derive(Clone, Copy, Debug, PartialEq, Eq, Structural)]
pub struct Position {
    /// Column.
    pub x: u16,
    /// Row.
    pub y: u16,
}

/// Whether `place` lies beyond `bounds` on at least one axis.
pub open spec fn out_of_bounds(place: Position, bounds: Position) -> bool {
    place.y > bounds.y || place.x > bounds.x
}

/// Whether a text of `len` characters fits into one row of `bounds`.
pub open spec fn fits(bounds: Position, len: int) -> bool {
    0 <= len <= bounds.x
}

/// Where a text of `len` characters starts when it is centered in `bounds`:
/// half of the columns that it leaves free, and the middle row, both
/// rounded down.
pub open spec fn centered(bounds: Position, len: int) -> Position {
    Position { x: ((bounds.x - len) / 2) as u16, y: bounds.y / 2 }
}

/// Whether `place` is where a text of some length that fits into a row of
/// `bounds` starts when it is centered there.
pub open spec fn is_centered_in(place: Position, bounds: Position) -> bool {
    exists|len: int| fits(bounds, len) && place == centered(bounds, len)
}

/// What every position offers.
pub trait PositionTrait: Sized {
    /// The cell that this position stands for.
    spec fn place(&self) -> Position;

    /// Column.
    fn x(&self) -> (x: u16)
        ensures
            x == self.place().x,
    ;

    /// Row.
    fn y(&self) -> (y: u16)
        ensures
            y == self.place().y,
    ;

    /// Moves to column `x`.
    fn set_x(&mut self, x: u16)
        ensures
            final(self).place() == (Position { x, y: old(self).place().y }),
    ;

    /// Moves to row `y`.
    fn set_y(&mut self, y: u16)
        ensures
            final(self).place() == (Position { x: old(self).place().x, y }),
    ;

    /// Whether this position lies beyond `bounds` on at least one axis.
    fn is_out_of_bounds(&self, bounds: &Position) -> (out: bool)
        ensures
            out == out_of_bounds(self.place(), *bounds),
    ;

    /// Brings the position up to date for a `text` shown within `bounds`.
    /// Returns `false`, and changes nothing, where that cannot be done.
    fn update(&mut self, bounds: &Position, text: &TextType) -> (ok: bool)
        ensures
            !ok ==> *final(self) == *old(self),
    ;
}

impl Default for Position {
    fn default() -> (r: Self)
        ensures
            r == (Position { x: 0, y: 0 }),
    {
        Position { x: 0, y: 0 }
    }
}

impl Position {
    /// The cell in column `x` and row `y`.
    pub fn new(x: u16, y: u16) -> (r: Self)
        ensures
            r == (Position { x, y }),
    {
        Self { x, y }
    }

    /// Where a text of `text_len` characters starts when it is centered in
    /// `bounds`, or `None` when the text is longer than a row.
    pub fn centered(bounds: &Position, text_len: usize) -> (r: Option<Position>)
        ensures
            r.is_some() == fits(*bounds, text_len as int),
            r.is_some() ==> r.unwrap() == centered(*bounds, text_len as int),
    {
        if text_len > bounds.x as usize {
            None
        } else {
            Some(Position { x: (bounds.x - text_len as u16) / 2, y: bounds.y / 2 })
        }
    }
}

impl PositionTrait for Position {
    open spec fn place(&self) -> Position {
        *self
    }

    fn x(&self) -> (x: u16) {
        self.x
    }

    fn y(&self) -> (y: u16) {
        self.y
    }

    fn set_x(&mut self, x: u16) {
        self.x = x;
    }

    fn set_y(&mut self, y: u16) {
        self.y = y;
    }

    fn is_out_of_bounds(&self, bounds: &Position) -> (out: bool) {
        self.y > bounds.y || self.x > bounds.x
    }

    /// A fixed position stays where it is.
    fn update(&mut self, bounds: &Position, text: &TextType) -> (ok: bool)
        ensures
            ok,
            *final(self) == *old(self),
    {
        true
    }
}

/// A position that keeps a text centered within bounds. It remembers the
/// text and the bounds that it was last computed for, and is computed anew
/// only when one of them has changed.
#[derive(Debug)]
pub struct CenteredPosition {
    position: Position,
    last_text: TextType,
    last_bounds: Position,
}

impl CenteredPosition {
    /// The text that the position was last computed for.
    pub closed spec fn last_text(&self) -> TextView {
        self.last_text@
    }

    /// The bounds that the position was last computed for.
    pub closed spec fn last_bounds(&self) -> Position {
        self.last_bounds
    }

    /// Whether both stand for the same cell and were last computed for the
    /// same text and bounds.
    pub open spec fn is_same(&self, other: &Self) -> bool {
        &&& self.place() == other.place()
        &&& self.last_text() == other.last_text()
        &&& self.last_bounds() == other.last_bounds()
    }

    /// Whether the position is up to date for `bounds` and `text`.
    pub open spec fn is_current(&self, bounds: Position, text: TextView) -> bool {
        self.last_text() == text && self.last_bounds() == bounds
    }

    /// The centered position of `text` in `bounds`, or `None` when the text
    /// cannot be shown or is longer than a row.
    pub fn new(bounds: &Position, text: &TextType) -> (r: Option<Self>)
        ensures
            text@ is StaticString ==> r.is_some() == fits(*bounds, text@->StaticString_0.len() as int),
            text@ is StaticString && r.is_some() ==> r.unwrap().place() == centered(
                *bounds,
                text@->StaticString_0.len() as int,
            ),
            r.is_some() ==> r.unwrap().is_current(*bounds, text@),
            r.is_some() ==> is_centered_in(r.unwrap().place(), *bounds),
    {
        match text.to_string() {
            Some(shown) => Self::with_shown_text(bounds, text, shown.as_str()),
            None => None,
        }
    }

    /// The centered position of `text` in `bounds`, where `shown` holds the
    /// characters that `text` shows; `None` when they are more than a row
    /// has columns.
    pub fn with_shown_text(bounds: &Position, text: &TextType, shown: &str) -> (r: Option<Self>)
        ensures
            r.is_some() == fits(*bounds, shown@.len() as int),
            r.is_some() ==> r.unwrap().place() == centered(*bounds, shown@.len() as int),
            r.is_some() ==> r.unwrap().is_current(*bounds, text@),
    {
        match Position::centered(bounds, shown.unicode_len()) {
            Some(position) => Some(
                Self { position, last_text: text.clone(), last_bounds: *bounds },
            ),
            None => None,
        }
    }

    /// Computes the position anew for `bounds` and `text`, where `shown`
    /// holds the characters that `text` shows. Returns `false`, and leaves
    /// the position as it was, when they are more than a row has columns.
    pub fn settle(&mut self, bounds: &Position, text: &TextType, shown: &str) -> (ok: bool)
        ensures
            ok == fits(*bounds, shown@.len() as int),
            !ok ==> *final(self) == *old(self),
            ok ==> final(self).place() == centered(*bounds, shown@.len() as int),
            ok ==> final(self).is_current(*bounds, text@),
    {
        match Position::centered(bounds, shown.unicode_len()) {
            Some(position) => {
                self.position = position;
                self.last_text = text.clone();
                self.last_bounds = *bounds;
                true
            },
            None => false,
        }
    }
}

impl Clone for CenteredPosition {
    fn clone(&self) -> (r: Self)
        ensures
            r == *self,
    {
        Self {
            position: self.position,
            last_text: self.last_text.clone(),
            last_bounds: self.last_bounds,
        }
    }
}

impl PartialEq for CenteredPosition {
    fn eq(&self, other: &Self) -> (same: bool) {
        self.position == other.position && self.last_text.same_as(&other.last_text)
            && self.last_bounds == other.last_bounds
    }
}

impl Eq for CenteredPosition {

}

impl PartialEqSpecImpl for CenteredPosition {
    open spec fn obeys_eq_spec() -> bool {
        true
    }

    open spec fn eq_spec(&self, other: &Self) -> bool {
        self.is_same(other)
    }
}

impl Default for CenteredPosition {
    fn default() -> (r: Self)
        ensures
            r.place() == (Position { x: 0, y: 0 }),
            r.is_current(Position { x: 0, y: 0 }, TextView::StaticString(Seq::empty())),
    {
        Self {
            position: Position { x: 0, y: 0 },
            last_text: TextType::StaticString(String::new()),
            last_bounds: Position { x: 0, y: 0 },
        }
    }
}

impl PositionTrait for CenteredPosition {
    closed spec fn place(&self) -> Position {
        self.position
    }

    fn x(&self) -> (x: u16) {
        self.position.x
    }

    fn y(&self) -> (y: u16) {
        self.position.y
    }

    fn set_x(&mut self, x: u16)
        ensures
            final(self).is_current(old(self).last_bounds(), old(self).last_text()),
    {
        self.position.x = x;
    }

    fn set_y(&mut self, y: u16)
        ensures
            final(self).is_current(old(self).last_bounds(), old(self).last_text()),
    {
        self.position.y = y;
    }

    fn is_out_of_bounds(&self, bounds: &Position) -> (out: bool) {
        self.position.y > bounds.y || self.position.x > bounds.x
    }

    /// Brings the position up to date for `bounds` and `text`. Nothing
    /// changes while both are the ones it was last computed for. Returns
    /// `false`, and leaves the position as it was, when the text cannot be
    /// shown or is longer than a row.
    fn update(&mut self, bounds: &Position, text: &TextType) -> (ok: bool)
        ensures
            old(self).is_current(*bounds, text@) ==> ok && *final(self) == *old(self),
            ok ==> final(self).is_current(*bounds, text@),
            !old(self).is_current(*bounds, text@) && text@ is StaticString ==> ok == fits(
                *bounds,
                text@->StaticString_0.len() as int,
            ),
            !old(self).is_current(*bounds, text@) && text@ is StaticString && ok
                ==> final(self).place() == centered(*bounds, text@->StaticString_0.len() as int),
            !old(self).is_current(*bounds, text@) && ok ==> is_centered_in(
                final(self).place(),
                *bounds,
            ),
    {
        if text.same_as(&self.last_text) && self.last_bounds == *bounds {
            return true;
        }
        match text.to_string() {
            Some(shown) => self.settle(bounds, text, shown.as_str()),
            None => false,
        }
    }
}

/// Either a fixed position or one that centers itself.
#[derive(Debug)]
pub enum PositionType {
    /// A fixed position.
    Static(Position),
    /// A position that keeps a text centered.
    Center(CenteredPosition),
}

impl Clone for PositionType {
    fn clone(&self) -> (r: Self)
        ensures
            r == *self,
    {
        match self {
            PositionType::Static(position) => PositionType::Static(*position),
            PositionType::Center(center) => PositionType::Center(center.clone()),
        }
    }
}

impl PartialEq for PositionType {
    fn eq(&self, other: &Self) -> (same: bool) {
        match (self, other) {
            (PositionType::Static(a), PositionType::Static(b)) => *a == *b,
            (PositionType::Center(a), PositionType::Center(b)) => *a == *b,
            _ => false,
        }
    }
}

impl Eq for PositionType {

}

impl PartialEqSpecImpl for PositionType {
    open spec fn obeys_eq_spec() -> bool {
        true
    }

    open spec fn eq_spec(&self, other: &Self) -> bool {
        self.is_same(other)
    }
}

impl PositionType {
    /// Whether both are fixed or both centered, and hold the same position.
    pub open spec fn is_same(&self, other: &Self) -> bool {
        match (*self, *other) {
            (PositionType::Static(a), PositionType::Static(b)) => a == b,
            (PositionType::Center(a), PositionType::Center(b)) => a.is_same(&b),
            _ => false,
        }
    }
}

impl PositionTrait for PositionType {
    open spec fn place(&self) -> Position {
        match self {
            PositionType::Static(position) => position.place(),
            PositionType::Center(center) => center.place(),
        }
    }

    fn x(&self) -> (x: u16) {
        match self {
            PositionType::Static(position) => position.x(),
            PositionType::Center(center) => center.x(),
        }
    }

    fn y(&self) -> (y: u16) {
        match self {
            PositionType::Static(position) => position.y(),
            PositionType::Center(center) => center.y(),
        }
    }

    fn set_x(&mut self, x: u16) {
        match self {
            PositionType::Static(position) => position.set_x(x),
            PositionType::Center(center) => center.set_x(x),
        }
    }

    fn set_y(&mut self, y: u16) {
        match self {
            PositionType::Static(position) => position.set_y(y),
            PositionType::Center(center) => center.set_y(y),
        }
    }

    fn is_out_of_bounds(&self, bounds: &Position) -> (out: bool) {
        match self {
            PositionType::Static(position) => position.is_out_of_bounds(bounds),
            PositionType::Center(center) => center.is_out_of_bounds(bounds),
        }
    }

    /// Brings the position up to date for `bounds` and `text`: a fixed
    /// position stays, a centered one is computed anew where needed.
    /// Returns `false`, and changes nothing, when a centered position
    /// cannot be computed.
    fn update(&mut self, bounds: &Position, text: &TextType) -> (ok: bool)
        ensures
            *old(self) is Static ==> ok && *final(self) == *old(self),
            (*old(self) is Center) == (*final(self) is Center),
            *old(self) is Center ==> {
                let before = (*old(self))->Center_0;
                let after = (*final(self))->Center_0;
                &&& before.is_current(*bounds, text@) ==> ok && after == before
                &&& ok ==> after.is_current(*bounds, text@)
                &&& !before.is_current(*bounds, text@) && text@ is StaticString ==> ok == fits(
                    *bounds,
                    text@->StaticString_0.len() as int,
                )
                &&& !before.is_current(*bounds, text@) && text@ is StaticString && ok
                    ==> after.place() == centered(*bounds, text@->StaticString_0.len() as int)
                &&& !before.is_current(*bounds, text@) && ok ==> is_centered_in(
                    after.place(),
                    *bounds,
                )
            },
    {
        match self {
            PositionType::Static(_) => true,
            PositionType::Center(center) => center.update(bounds, text),
        }
    }
}

} // verus!
