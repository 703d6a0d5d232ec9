//! Colors of a stream's head, trail and last cell.

use vstd::prelude::*;
use crate::ansi;
use crate::ansi::palette_code;
use crate::ansi::rgb_code;
use crate::random::RandomSource;

verus! {

/// A terminal color.
#[derive(Clone, Copy, Debug, PartialEq, Eq, Structural)]
pub enum Color {
    /// A color of the terminal's 16-color palette.
    Palette(u8),
    /// A color given by its red, green and blue channels.
    RGB {
        /// Red
        r: u8,
        /// Green
        g: u8,
        /// Blue
        b: u8,
    },
}

/// The colors that a stream is drawn with.
#[derive(Clone, Copy, Debug, PartialEq, Eq, Structural)]
pub struct Colors {
    /// Color of the trail.
    pub trail: Color,
    /// Color of the head, the lowest character.
    pub head: Color,
    /// Color of the last cell of a full trail.
    pub left_behind: Color,
}

/// A channel moved by `offset` and held inside `0..=255`.
pub open spec fn shifted_channel(value: u8, offset: int) -> u8 {
    if value + offset > 255 {
        255u8
    } else if value + offset < 0 {
        0u8
    } else {
        (value + offset) as u8
    }
}

/// The head color that goes with `color`: a palette color changes between
/// its normal and its bright half, an RGB color gets 15 brighter.
pub open spec fn auto_head_color(color: Color) -> Color {
    match color {
        Color::Palette(c) => if c <= 7 {
            Color::Palette((c + 8) as u8)
        } else if c <= 15 {
            Color::Palette((c - 8) as u8)
        } else {
            color
        },
        Color::RGB { r, g, b } => Color::RGB {
            r: shifted_channel(r, 15),
            g: shifted_channel(g, 15),
            b: shifted_channel(b, 15),
        },
    }
}

/// The color of the cell that a stream leaves behind: a palette color
/// stays, an RGB color gets 30 darker.
pub open spec fn auto_left_behind_color(color: Color) -> Color {
    match color {
        Color::Palette(c) => color,
        Color::RGB { r, g, b } => Color::RGB {
            r: shifted_channel(r, -30),
            g: shifted_channel(g, -30),
            b: shifted_channel(b, -30),
        },
    }
}

/// The sequence that sets the text color to `color`. Of the palette only
/// the colors 1 to 15 are told apart: every other number gives color 0.
pub open spec fn ansi_code(color: Color) -> Seq<char> {
    match color {
        Color::Palette(c) => if 1 <= c <= 15 {
            palette_code(c as nat)
        } else {
            palette_code(0)
        },
        Color::RGB { r, g, b } => rgb_code(r, g, b),
    }
}

/// The colors of trail and head that go by the number `choice`: for 2 to 8
/// the palette colors 1 to 7, each with its bright form for the head, but
/// for the dark gray that goes with blue; for any other number black with
/// dark gray.
pub open spec fn fg_pair(choice: u16) -> (Color, Color) {
    if choice == 5 {
        (Color::Palette(4), Color::Palette(8))
    } else if 2 <= choice <= 8 {
        (Color::Palette((choice - 1) as u8), Color::Palette((choice + 7) as u8))
    } else {
        (Color::Palette(0), Color::Palette(8))
    }
}

/// The colors of trail and head that go by the number `choice`.
pub fn fg_of(choice: u16) -> (pair: (Color, Color))
    ensures
        pair == fg_pair(choice),
{
    if choice == 5 {
        (Color::Palette(4), Color::Palette(8))
    } else if 2 <= choice && choice <= 8 {
        (Color::Palette((choice - 1) as u8), Color::Palette((choice + 7) as u8))
    } else {
        (Color::Palette(0), Color::Palette(8))
    }
}

/// Colors of trail and head, drawn from the seven colors of the palette.
pub fn random_fg(rng: &mut RandomSource) -> (pair: (Color, Color))
    ensures
        exists|choice: u16| 2 <= choice <= 8 && pair == #[trigger] fg_pair(choice),
{
    let choice = rng.value_between(2, 8);
    fg_of(choice)
}

fn shift_channel(value: u8, offset: i16) -> (r: u8)
    requires
        -255 <= offset <= 255,
    ensures
        r == shifted_channel(value, offset as int),
{
    let wide: i16 = value as i16 + offset;
    if wide > 255 {
        255
    } else if wide < 0 {
        0
    } else {
        wide as u8
    }
}

impl Color {
    /// The RGB color whose channels are the first three values of `rgb`.
    pub fn rgb_from_vec(rgb: Vec<u8>) -> (color: Color)
        requires
            rgb@.len() >= 3,
        ensures
            color == (Color::RGB { r: rgb@[0], g: rgb@[1], b: rgb@[2] }),
    {
        Color::RGB { r: rgb[0], g: rgb[1], b: rgb[2] }
    }

    /// The escape sequence that sets the text color to this color.
    pub fn get_ansi_string(&self) -> (code: String)
        ensures
            code@ == ansi_code(*self),
    {
        match *self {
            Color::Palette(color) => {
                let code: &'static str = match color {
                    1 => ansi::red(),
                    2 => ansi::green(),
                    3 => ansi::yellow(),
                    4 => ansi::blue(),
                    5 => ansi::magenta(),
                    6 => ansi::cyan(),
                    7 => ansi::white(),
                    8 => ansi::light_black(),
                    9 => ansi::light_red(),
                    10 => ansi::light_green(),
                    11 => ansi::light_yellow(),
                    12 => ansi::light_blue(),
                    13 => ansi::light_magenta(),
                    14 => ansi::light_cyan(),
                    15 => ansi::light_white(),
                    _ => ansi::black(),
                };
                code.to_owned()
            },
            Color::RGB { r, g, b } => ansi::rgb(r, g, b),
        }
    }

    /// The head color that goes with this color.
    pub fn get_auto_head_color(&self) -> (color: Color)
        ensures
            color == auto_head_color(*self),
    {
        match *self {
            Color::Palette(c) => {
                if c <= 7 {
                    Color::Palette(c + 8)
                } else if c <= 15 {
                    Color::Palette(c - 8)
                } else {
                    *self
                }
            },
            Color::RGB { r, g, b } => Color::RGB {
                r: shift_channel(r, 15),
                g: shift_channel(g, 15),
                b: shift_channel(b, 15),
            },
        }
    }

    /// The left-behind color that goes with this color.
    pub fn get_auto_left_behind_color(&self) -> (color: Color)
        ensures
            color == auto_left_behind_color(*self),
    {
        match *self {
            Color::Palette(c) => Color::Palette(c),
            Color::RGB { r, g, b } => Color::RGB {
                r: shift_channel(r, -30),
                g: shift_channel(g, -30),
                b: shift_channel(b, -30),
            },
        }
    }
}

} // verus!
