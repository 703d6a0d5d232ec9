//! What the command line may ask for, and how its color values are read.

use vstd::prelude::*;
use crate::colors::Color;
use crate::falling_char::chars_of;

verus! {

/// The options of the command line, each `None` where it was not given.
pub struct Cli {
    /// Width of the screen.
    pub size_x: Option<u16>,
    /// Height of the screen.
    pub size_y: Option<u16>,
    /// Number of a palette color for the streams.
    pub color: Option<String>,
    /// Color of the streams as `r,g,b`, each from 0 to 255.
    pub color_rgb: Option<String>,
    /// Number of streams.
    pub no_fallers: Option<usize>,
    /// The characters that streams are made of.
    pub chars_to_use: Option<String>,
    /// A message to show on the screen.
    pub message: Option<String>,
}

/// The value of a decimal digit, `None` for any other character.
pub open spec fn digit_value(c: char) -> Option<nat> {
    if '0' <= c <= '9' {
        Some((c as u32 - '0' as u32) as nat)
    } else {
        None
    }
}

/// The number that `text` is in decimal digits, `None` where a character is
/// no digit. The empty text counts as 0.
pub open spec fn digits_value(text: Seq<char>) -> Option<nat>
    decreases text.len(),
{
    if text.len() == 0 {
        Some(0nat)
    } else {
        match (digits_value(text.drop_last()), digit_value(text.last())) {
            (Some(value), Some(digit)) => Some(value * 10 + digit),
            _ => None,
        }
    }
}

/// The number from 0 to 255 that `text` is: one or more decimal digits,
/// after a `+` or without it.
pub open spec fn channel_of(text: Seq<char>) -> Option<u8> {
    let digits = if text.len() > 0 && text[0] == '+' {
        text.drop_first()
    } else {
        text
    };
    if digits.len() == 0 {
        None
    } else {
        match digits_value(digits) {
            Some(value) => if value <= 255 {
                Some(value as u8)
            } else {
                None
            },
            None => None,
        }
    }
}

/// The index of the first comma of `text` at or after `from`, or the length
/// of `text` where there is none.
pub open spec fn comma_from(text: Seq<char>, from: int) -> int
    decreases text.len() - from,
{
    if from < 0 || from >= text.len() {
        text.len() as int
    } else if text[from] == ',' {
        from
    } else {
        comma_from(text, from + 1)
    }
}

/// The color that `text` is: three numbers from 0 to 255 with one comma
/// between each two, and nothing else.
pub open spec fn rgb_of(text: Seq<char>) -> Option<Color> {
    let first = comma_from(text, 0);
    let second = comma_from(text, first + 1);
    let third = comma_from(text, second + 1);
    if first < text.len() && second < text.len() && third == text.len() {
        match (
            channel_of(text.subrange(0, first)),
            channel_of(text.subrange(first + 1, second)),
            channel_of(text.subrange(second + 1, text.len() as int)),
        ) {
            (Some(r), Some(g), Some(b)) => Some(Color::RGB { r, g, b }),
            _ => None,
        }
    } else {
        None
    }
}

/// A text that is a number begins with numbers, none of them greater.
proof fn lemma_digits_prefix(text: Seq<char>, k: int)
    requires
        0 <= k <= text.len(),
        digits_value(text).is_some(),
    ensures
        digits_value(text.take(k)).is_some(),
        digits_value(text.take(k)).unwrap() <= digits_value(text).unwrap(),
    decreases text.len(),
{
    if k == text.len() {
        assert(text.take(k) == text);
    } else {
        assert(text.drop_last().take(k) == text.take(k));
        lemma_digits_prefix(text.drop_last(), k);
    }
}

fn digit_of(c: char) -> (r: Option<u8>)
    ensures
        r.is_some() == digit_value(c).is_some(),
        r.is_some() ==> r.unwrap() == digit_value(c).unwrap(),
        r.is_some() ==> r.unwrap() <= 9,
{
    if '0' <= c && c <= '9' {
        Some((c as u32 - '0' as u32) as u8)
    } else {
        None
    }
}

/// Reads the characters of `chars` from `from` up to `to` as a number from
/// 0 to 255.
pub fn parse_channel(chars: &Vec<char>, from: usize, to: usize) -> (r: Option<u8>)
    requires
        from <= to <= chars@.len(),
    ensures
        r == channel_of(chars@.subrange(from as int, to as int)),
{
    let ghost text = chars@.subrange(from as int, to as int);
    let start: usize = if from < to && chars[from] == '+' {
        from + 1
    } else {
        from
    };
    let ghost digits = chars@.subrange(start as int, to as int);
    assert(digits == if text.len() > 0 && text[0] == '+' {
        text.drop_first()
    } else {
        text
    });
    if start == to {
        return None;
    }
    let mut value: u16 = 0;
    let mut i: usize = start;
    assert(digits.take(0) == Seq::<char>::empty());
    while i < to
        invariant
            start <= i <= to <= chars@.len(),
            text == chars@.subrange(from as int, to as int),
            digits == chars@.subrange(start as int, to as int),
            digits.len() > 0,
            digits == if text.len() > 0 && text[0] == '+' {
                text.drop_first()
            } else {
                text
            },
            digits_value(digits.take(i - start)) == Some(value as nat),
            value <= 255,
        decreases to - i,
    {
        let ghost seen = digits.take(i - start);
        let ghost next = digits.take(i - start + 1);
        assert(next.drop_last() == seen);
        assert(next.last() == chars@[i as int]);
        assert(digits_value(next) == match (digits_value(seen), digit_value(next.last())) {
            (Some(value), Some(digit)) => Some(value * 10 + digit),
            _ => None,
        });
        match digit_of(chars[i]) {
            Some(digit) => {
                value = value * 10 + digit as u16;
                if value > 255 {
                    proof {
                        if digits_value(digits).is_some() {
                            lemma_digits_prefix(digits, i - start + 1);
                        }
                    }
                    return None;
                }
            },
            None => {
                proof {
                    if digits_value(digits).is_some() {
                        lemma_digits_prefix(digits, i - start + 1);
                    }
                }
                return None;
            },
        }
        i += 1;
    }
    assert(digits.take(to - start) == digits);
    Some(value as u8)
}

/// The index of the first comma of `chars` at or after `from`, or the
/// length of `chars` where there is none.
pub fn find_comma(chars: &Vec<char>, from: usize) -> (r: usize)
    requires
        from <= chars@.len(),
    ensures
        r == comma_from(chars@, from as int),
        from <= r <= chars@.len(),
{
    let mut i: usize = from;
    while i < chars.len() && chars[i] != ','
        invariant
            from <= i <= chars@.len(),
            comma_from(chars@, from as int) == comma_from(chars@, i as int),
        decreases chars@.len() - i,
    {
        i += 1;
    }
    i
}

/// Reads `text` as the number of a palette color, from 0 to 255.
pub fn parse_palette(text: &str) -> (r: Option<Color>)
    ensures
        r == match channel_of(text@) {
            Some(number) => Some(Color::Palette(number)),
            None => None,
        },
{
    let chars = chars_of(text);
    assert(chars@.subrange(0, chars@.len() as int) == chars@);
    match parse_channel(&chars, 0, chars.len()) {
        Some(number) => Some(Color::Palette(number)),
        None => None,
    }
}

/// Reads `text` as an RGB color: three numbers from 0 to 255 with commas
/// between them.
pub fn parse_rgb(text: &str) -> (r: Option<Color>)
    ensures
        r == rgb_of(text@),
{
    let chars = chars_of(text);
    let len = chars.len();
    let first = find_comma(&chars, 0);
    if first >= len {
        return None;
    }
    let second = find_comma(&chars, first + 1);
    if second >= len {
        return None;
    }
    let third = find_comma(&chars, second + 1);
    if third != len {
        return None;
    }
    let r = parse_channel(&chars, 0, first);
    let g = parse_channel(&chars, first + 1, second);
    let b = parse_channel(&chars, second + 1, len);
    match (r, g, b) {
        (Some(r), Some(g), Some(b)) => Some(Color::rgb_from_vec(vec![r, g, b])),
        _ => None,
    }
}

} // verus!
