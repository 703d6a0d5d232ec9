//! The escape sequences that move the cursor and set colors and styles.

use vstd::prelude::*;

verus! {

/// The character of the digit `d`.
pub open spec fn digit(d: nat) -> char {
    if d == 0 {
        '0'
    } else if d == 1 {
        '1'
    } else if d == 2 {
        '2'
    } else if d == 3 {
        '3'
    } else if d == 4 {
        '4'
    } else if d == 5 {
        '5'
    } else if d == 6 {
        '6'
    } else if d == 7 {
        '7'
    } else if d == 8 {
        '8'
    } else {
        '9'
    }
}

/// `n` in decimal digits, without leading zeros.
pub open spec fn decimal(n: nat) -> Seq<char>
    decreases n,
{
    if n < 10 {
        seq![digit(n)]
    } else {
        decimal(n / 10).push(digit(n % 10))
    }
}

/// The sequence that sets the text color to color `n` of the palette.
pub open spec fn palette_code(n: nat) -> Seq<char> {
    "\x1b[38;5;"@ + decimal(n) + "m"@
}

/// The sequence that sets the text color to the given channels.
pub open spec fn rgb_code(r: u8, g: u8, b: u8) -> Seq<char> {
    "\x1b[38;2;"@ + decimal(r as nat) + ";"@ + decimal(g as nat) + ";"@ + decimal(b as nat) + "m"@
}

/// The sequence that moves the cursor to column `x` of row `y`.
pub open spec fn goto_code(x: u16, y: u16) -> Seq<char> {
    "\x1b["@ + decimal(y as nat) + ";"@ + decimal(x as nat) + "H"@
}

/// The sequence that makes text bold.
pub open spec fn bold_code() -> Seq<char> {
    "\x1b[1m"@
}

/// The sequence that resets color and style.
pub open spec fn reset_code() -> Seq<char> {
    "\x1b[m"@
}

/// termion's `color::Black::fg_str`, the constant sequence for color 0 of
/// the palette.
#[verifier::external_body]
pub(crate) fn black() -> (code: &'static str)
    ensures
        code@ == palette_code(0),
{
    termion::color::Black.fg_str()
}

/// termion's `color::Red::fg_str`, the constant sequence for color 1 of
/// the palette.
#[verifier::external_body]
pub(crate) fn red() -> (code: &'static str)
    ensures
        code@ == palette_code(1),
{
    termion::color::Red.fg_str()
}

/// termion's `color::Green::fg_str`, the constant sequence for color 2 of
/// the palette.
#[verifier::external_body]
pub(crate) fn green() -> (code: &'static str)
    ensures
        code@ == palette_code(2),
{
    termion::color::Green.fg_str()
}

/// termion's `color::Yellow::fg_str`, the constant sequence for color 3 of
/// the palette.
#[verifier::external_body]
pub(crate) fn yellow() -> (code: &'static str)
    ensures
        code@ == palette_code(3),
{
    termion::color::Yellow.fg_str()
}

/// termion's `color::Blue::fg_str`, the constant sequence for color 4 of
/// the palette.
#[verifier::external_body]
pub(crate) fn blue() -> (code: &'static str)
    ensures
        code@ == palette_code(4),
{
    termion::color::Blue.fg_str()
}

/// termion's `color::Magenta::fg_str`, the constant sequence for color 5 of
/// the palette.
#[verifier::external_body]
pub(crate) fn magenta() -> (code: &'static str)
    ensures
        code@ == palette_code(5),
{
    termion::color::Magenta.fg_str()
}

/// termion's `color::Cyan::fg_str`, the constant sequence for color 6 of
/// the palette.
#[verifier::external_body]
pub(crate) fn cyan() -> (code: &'static str)
    ensures
        code@ == palette_code(6),
{
    termion::color::Cyan.fg_str()
}

/// termion's `color::White::fg_str`, the constant sequence for color 7 of
/// the palette.
#[verifier::external_body]
pub(crate) fn white() -> (code: &'static str)
    ensures
        code@ == palette_code(7),
{
    termion::color::White.fg_str()
}

/// termion's `color::LightBlack::fg_str`, the constant sequence for color 8 of
/// the palette.
#[verifier::external_body]
pub(crate) fn light_black() -> (code: &'static str)
    ensures
        code@ == palette_code(8),
{
    termion::color::LightBlack.fg_str()
}

/// termion's `color::LightRed::fg_str`, the constant sequence for color 9 of
/// the palette.
#[verifier::external_body]
pub(crate) fn light_red() -> (code: &'static str)
    ensures
        code@ == palette_code(9),
{
    termion::color::LightRed.fg_str()
}

/// termion's `color::LightGreen::fg_str`, the constant sequence for color 10 of
/// the palette.
#[verifier::external_body]
pub(crate) fn light_green() -> (code: &'static str)
    ensures
        code@ == palette_code(10),
{
    termion::color::LightGreen.fg_str()
}

/// termion's `color::LightYellow::fg_str`, the constant sequence for color 11 of
/// the palette.
#[verifier::external_body]
pub(crate) fn light_yellow() -> (code: &'static str)
    ensures
        code@ == palette_code(11),
{
    termion::color::LightYellow.fg_str()
}

/// termion's `color::LightBlue::fg_str`, the constant sequence for color 12 of
/// the palette.
#[verifier::external_body]
pub(crate) fn light_blue() -> (code: &'static str)
    ensures
        code@ == palette_code(12),
{
    termion::color::LightBlue.fg_str()
}

/// termion's `color::LightMagenta::fg_str`, the constant sequence for color 13 of
/// the palette.
#[verifier::external_body]
pub(crate) fn light_magenta() -> (code: &'static str)
    ensures
        code@ == palette_code(13),
{
    termion::color::LightMagenta.fg_str()
}

/// termion's `color::LightCyan::fg_str`, the constant sequence for color 14 of
/// the palette.
#[verifier::external_body]
pub(crate) fn light_cyan() -> (code: &'static str)
    ensures
        code@ == palette_code(14),
{
    termion::color::LightCyan.fg_str()
}

/// termion's `color::LightWhite::fg_str`, the constant sequence for color 15 of
/// the palette.
#[verifier::external_body]
pub(crate) fn light_white() -> (code: &'static str)
    ensures
        code@ == palette_code(15),
{
    termion::color::LightWhite.fg_str()
}

/// termion's `color::Rgb::fg_string`, which joins the sequence's opening,
/// the three channels in decimal with `;` between them, and `m`.
#[verifier::external_body]
pub(crate) fn rgb(r: u8, g: u8, b: u8) -> (code: String)
    ensures
        code@ == rgb_code(r, g, b),
{
    termion::color::Rgb(r, g, b).fg_string()
}

/// termion's conversion of `cursor::Goto` into a `String`, which joins the
/// sequence's opening, the row and the column in decimal with `;` between
/// them, and `H`.
#[verifier::external_body]
pub(crate) fn goto(x: u16, y: u16) -> (code: String)
    ensures
        code@ == goto_code(x, y),
{
    String::from(termion::cursor::Goto(x, y))
}

/// termion's `style::Bold` as a string slice, a constant.
#[verifier::external_body]
pub(crate) fn bold() -> (code: &'static str)
    ensures
        code@ == bold_code(),
{
    AsRef::<str>::as_ref(&termion::style::Bold)
}

/// termion's `style::Reset` as a string slice, a constant.
#[verifier::external_body]
pub(crate) fn reset() -> (code: &'static str)
    ensures
        code@ == reset_code(),
{
    AsRef::<str>::as_ref(&termion::style::Reset)
}

/// std's `String::push` appends one character.
pub assume_specification[ String::push ](text: &mut String, glyph: char)
    ensures
        final(text)@ == old(text)@.push(glyph),
;

} // verus!
