//! One frame of the animation: what is drawn, how long to wait after it,
//! and what a key does.

use vstd::prelude::*;
use crate::falling_char::Cell;
use crate::falling_char::FallingChar;
use crate::random::RandomSource;

verus! {

/// What a key asks for.
#[derive(Clone, Copy, Debug, PartialEq, Eq, Structural)]
pub enum KeyAction {
    /// Leave the program.
    Quit,
    /// Clear the screen.
    Clear,
    /// Nothing.
    Continue,
}

/// The byte of the key `q`.
pub const KEY_QUIT: u8 = 113;

/// The byte of the key `c`.
pub const KEY_CLEAR: u8 = 99;

/// How many milliseconds to wait after a frame that took `elapsed`: what
/// is left of 33, and 1 where nothing is left.
pub open spec fn frame_pause(elapsed: int) -> int {
    if elapsed < 33 {
        33 - elapsed
    } else {
        1
    }
}

/// How many milliseconds to wait after a frame that took `time_elapsed`
/// milliseconds, so that a second has about 30 frames.
pub fn time_to_sleep(time_elapsed: u128) -> (pause: u64)
    ensures
        pause == frame_pause(time_elapsed as int),
        1 <= pause <= 33,
{
    if time_elapsed < 33 {
        33 - time_elapsed as u64
    } else {
        1
    }
}

/// What the key that was read asks for: `q` leaves the program, `c` clears
/// the screen, and anything else, or no key, does nothing.
pub fn handle_keys(key: Option<u8>) -> (action: KeyAction)
    ensures
        action == match key {
            Some(byte) => if byte == KEY_QUIT {
                KeyAction::Quit
            } else if byte == KEY_CLEAR {
                KeyAction::Clear
            } else {
                KeyAction::Continue
            },
            None => KeyAction::Continue,
        },
{
    match key {
        Some(byte) => {
            if byte == KEY_QUIT {
                KeyAction::Quit
            } else if byte == KEY_CLEAR {
                KeyAction::Clear
            } else {
                KeyAction::Continue
            }
        },
        None => KeyAction::Continue,
    }
}

/// Draws every stream and then moves it down one row. The result holds,
/// for each stream in turn, the cells that it draws in this frame.
pub fn main_loop(
    falling_chars: &mut Vec<FallingChar>,
    rng: &mut RandomSource,
) -> (frame: Vec<Vec<Cell>>)
    requires
        forall|i: int| 0 <= i < old(falling_chars)@.len() ==> old(falling_chars)@[i].is_movable(),
    ensures
        final(falling_chars)@.len() == old(falling_chars)@.len(),
        frame@.len() == old(falling_chars)@.len(),
        forall|i: int|
            0 <= i < frame@.len() ==> {
                &&& old(falling_chars)@[i].is_rendering((#[trigger] frame@[i])@)
                &&& final(falling_chars)@[i].wf()
                &&& final(falling_chars)@[i].is_advance_of(&old(falling_chars)@[i])
            },
{
    let len = falling_chars.len();
    let mut frame: Vec<Vec<Cell>> = Vec::new();
    let mut i: usize = 0;
    while i < len
        invariant
            len == old(falling_chars)@.len(),
            falling_chars@.len() == len,
            i <= len,
            frame@.len() == i,
            forall|k: int| i <= k < len ==> falling_chars@[k] == old(falling_chars)@[k],
            forall|k: int| i <= k < len ==> old(falling_chars)@[k].is_movable(),
            forall|k: int|
                0 <= k < i ==> {
                    &&& old(falling_chars)@[k].is_rendering((#[trigger] frame@[k])@)
                    &&& falling_chars@[k].wf()
                    &&& falling_chars@[k].is_advance_of(&old(falling_chars)@[k])
                },
        decreases len - i,
    {
        let cells = falling_chars[i].render(rng);
        frame.push(cells);
        falling_chars[i].advance();
        i += 1;
    }
    frame
}

} // verus!
