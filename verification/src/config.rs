//! What the streams and their manager are set up with.

use vstd::prelude::*;
use crate::cli_parser::channel_of;
use crate::cli_parser::parse_palette;
use crate::cli_parser::parse_rgb;
use crate::cli_parser::rgb_of;
use crate::cli_parser::Cli;
use crate::colors::auto_head_color;
use crate::colors::auto_left_behind_color;
use crate::colors::Color;
use crate::colors::Colors;
use crate::message::Message;
use crate::message::TextType;
use crate::message::TextView;
use crate::position::centered;
use crate::position::fits;
use crate::position::Position;
use crate::position::PositionTrait;

verus! {

/// The settings that all streams share.
pub struct Config {
    /// Size of the screen: its last column and its last row.
    pub screen_size: Position,
    /// Colors of the streams.
    pub colors: Colors,
    /// How many streams there are to be at most.
    pub no_fallers: usize,
    /// The characters that streams are made of.
    pub chars_to_use: String,
    /// A message to show on the screen, if any.
    pub message: Option<Message>,
}

impl Clone for Config {
    fn clone(&self) -> (r: Self)
        ensures
            r == *self,
    {
        Config {
            screen_size: self.screen_size,
            colors: self.colors,
            no_fallers: self.no_fallers,
            chars_to_use: self.chars_to_use.clone(),
            message: match &self.message {
                Some(message) => Some(message.clone()),
                None => None,
            },
        }
    }
}

/// Why the options of a command line cannot be taken over.
#[derive(Clone, Copy, Debug, PartialEq, Eq, Structural)]
pub enum CliError {
    /// The palette color is no number from 0 to 255.
    IncorrectColor,
    /// The RGB color is not three numbers from 0 to 255 with commas between
    /// them.
    IncorrectRgbColor,
    /// The message is longer than a row of the screen.
    MessageTooLong,
}

/// The size of the screen once `cli` is taken over: each side that `cli`
/// gives replaces that of `size`.
pub open spec fn cli_size(cli: Cli, size: Position) -> Position {
    Position {
        x: match cli.size_x {
            Some(x) => x,
            None => size.x,
        },
        y: match cli.size_y {
            Some(y) => y,
            None => size.y,
        },
    }
}

/// The color of the trail once `cli` is taken over: its RGB color where it
/// gives one, else its palette color where it gives one, else `trail`.
/// `None` where the color that counts cannot be read.
pub open spec fn cli_trail(cli: Cli, trail: Color) -> Option<Color> {
    match cli.color_rgb {
        Some(text) => rgb_of(text@),
        None => match cli.color {
            Some(text) => match channel_of(text@) {
                Some(number) => Some(Color::Palette(number)),
                None => None,
            },
            None => Some(trail),
        },
    }
}

/// What is wrong with `cli` for a screen of `size`, if anything: the first
/// of a palette color that cannot be read, an RGB color that cannot be
/// read, and a message that is too long for the screen.
pub open spec fn cli_error(cli: Cli, size: Position) -> Option<CliError> {
    if cli.color.is_some() && channel_of(cli.color.unwrap()@).is_none() {
        Some(CliError::IncorrectColor)
    } else if cli.color_rgb.is_some() && rgb_of(cli.color_rgb.unwrap()@).is_none() {
        Some(CliError::IncorrectRgbColor)
    } else if cli.message.is_some() && !fits(
        cli_size(cli, size),
        cli.message.unwrap()@.len() as int,
    ) {
        Some(CliError::MessageTooLong)
    } else {
        None
    }
}

impl Config {
    /// Takes over what `cli` gives, and keeps the rest. The colors of the
    /// head and of the cell left behind follow the color of the trail. No
    /// streams at all are not to be had: 0 counts as 1. A message is
    /// centered on the screen and has the color of the head. Where `cli`
    /// cannot be taken over nothing changes.
    pub fn parse_cli(&mut self, cli: &Cli) -> (r: Result<(), CliError>)
        ensures
            r == match cli_error(*cli, old(self).screen_size) {
                Some(error) => Err::<(), CliError>(error),
                None => Ok(()),
            },
            r.is_err() ==> *final(self) == *old(self),
            r.is_ok() ==> {
                let size = cli_size(*cli, old(self).screen_size);
                let trail = cli_trail(*cli, old(self).colors.trail).unwrap();
                &&& final(self).screen_size == size
                &&& final(self).colors == (Colors {
                    trail,
                    head: auto_head_color(trail),
                    left_behind: auto_left_behind_color(trail),
                })
                &&& final(self).no_fallers == match cli.no_fallers {
                    Some(number) => if number == 0 {
                        1
                    } else {
                        number
                    },
                    None => old(self).no_fallers,
                }
                &&& final(self).chars_to_use@ == match cli.chars_to_use {
                    Some(chars) => chars@,
                    None => old(self).chars_to_use@,
                }
                &&& match cli.message {
                    Some(text) => {
                        &&& final(self).message.is_some()
                        &&& final(self).message.unwrap().text@ == TextView::StaticString(text@)
                        &&& final(self).message.unwrap().position.place() == centered(
                            size,
                            text@.len() as int,
                        )
                        &&& final(self).message.unwrap().is_settled()
                        &&& final(self).message.unwrap().bounds == size
                        &&& final(self).message.unwrap().color == auto_head_color(trail)
                    },
                    None => final(self).message == old(self).message,
                }
            },
    {
        let size = Position::new(
            match cli.size_x {
                Some(x) => x,
                None => self.screen_size.x,
            },
            match cli.size_y {
                Some(y) => y,
                None => self.screen_size.y,
            },
        );
        let mut trail = self.colors.trail;
        match &cli.color {
            Some(text) => {
                match parse_palette(text.as_str()) {
                    Some(color) => {
                        trail = color;
                    },
                    None => {
                        return Err(CliError::IncorrectColor);
                    },
                }
            },
            None => {},
        }
        match &cli.color_rgb {
            Some(text) => {
                match parse_rgb(text.as_str()) {
                    Some(color) => {
                        trail = color;
                    },
                    None => {
                        return Err(CliError::IncorrectRgbColor);
                    },
                }
            },
            None => {},
        }
        let head = trail.get_auto_head_color();
        let mut shown: Option<Message> = None;
        match &cli.message {
            Some(text) => {
                match Message::new_centered_or_none(size, TextType::StaticString(text.clone()), head) {
                    Some(message) => {
                        shown = Some(message);
                    },
                    None => {
                        return Err(CliError::MessageTooLong);
                    },
                }
            },
            None => {},
        }
        self.screen_size = size;
        self.colors = Colors { trail, head, left_behind: trail.get_auto_left_behind_color() };
        match cli.no_fallers {
            Some(number) => {
                self.no_fallers = if number == 0 {
                    1
                } else {
                    number
                };
            },
            None => {},
        }
        match &cli.chars_to_use {
            Some(chars) => {
                self.chars_to_use = chars.clone();
            },
            None => {},
        }
        if shown.is_some() {
            self.message = shown;
        }
        Ok(())
    }

    /// The settings of a screen of `screen_size` where nothing else was
    /// asked for: 50 green streams of letters, digits and punctuation, and
    /// no message.
    pub fn new_with_defaults(screen_size: Position) -> (config: Self)
        ensures
            config.screen_size == screen_size,
            config.colors == (Colors {
                trail: Color::Palette(2),
                head: Color::Palette(10),
                left_behind: Color::Palette(2),
            }),
            config.no_fallers == 50,
            config.chars_to_use@
                == "abcdefghijklmnopqrstuwvxyzABCDEFGHIJKLMNOPQRSTUWVXYZ0123456789!@$%^&*()_+|{}[]<>?!~\\/.,:;"@,
            config.message.is_none(),
    {
        let trail = Color::Palette(2);
        Self {
            screen_size,
            colors: Colors {
                trail,
                head: trail.get_auto_head_color(),
                left_behind: trail.get_auto_left_behind_color(),
            },
            no_fallers: 50,
            chars_to_use: "abcdefghijklmnopqrstuwvxyzABCDEFGHIJKLMNOPQRSTUWVXYZ0123456789!@$%^&*()_+|{}[]<>?!~\\/.,:;".to_owned(),
            message: None,
        }
    }

    /// Size of the screen.
    pub fn screen_size(&self) -> (r: &Position)
        ensures
            *r == self.screen_size,
    {
        &self.screen_size
    }

    /// Colors of the streams.
    pub fn colors(&self) -> (r: &Colors)
        ensures
            *r == self.colors,
    {
        &self.colors
    }

    /// How many streams there are to be at most.
    pub fn no_fallers(&self) -> (r: &usize)
        ensures
            *r == self.no_fallers,
    {
        &self.no_fallers
    }

    /// The characters that streams are made of.
    pub fn chars_to_use(&self) -> (r: &String)
        ensures
            *r == self.chars_to_use,
    {
        &self.chars_to_use
    }

    /// The message to show, if any.
    pub fn message(&self) -> (r: &Option<Message>)
        ensures
            *r == self.message,
    {
        &self.message
    }
}

} // verus!
