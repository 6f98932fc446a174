//! The per-frame input snapshot: the flag word the platform layer fills in,
//! its decoding into one logical input, and the typed-text buffer.

use vstd::prelude::*;

verus! {

/// A compass direction of movement.
#[derive(Clone, Copy, Debug, PartialEq, Eq, Structural)]
pub enum Dir {
    Up,
    UpRight,
    Right,
    DownRight,
    Down,
    DownLeft,
    Left,
    UpLeft,
}

impl Default for Dir {
    fn default() -> (r: Self)
        ensures
            r == Dir::Up,
    {
        Dir::Up
    }
}

/// Which of the two arrow sprites to draw.
#[derive(Clone, Copy, Debug, PartialEq, Eq, Structural)]
pub enum ArrowKind {
    Red,
    Green,
}

impl Default for ArrowKind {
    fn default() -> (r: Self)
        ensures
            r == ArrowKind::Red,
    {
        ArrowKind::Red
    }
}

/// One bit per key fact the platform layer samples each frame.
pub type InputFlags = u16;

pub const INPUT_UP_PRESSED: InputFlags = 0b0000_0000_0000_0001;

pub const INPUT_DOWN_PRESSED: InputFlags = 0b0000_0000_0000_0010;

pub const INPUT_LEFT_PRESSED: InputFlags = 0b0000_0000_0000_0100;

pub const INPUT_RIGHT_PRESSED: InputFlags = 0b0000_0000_0000_1000;

pub const INPUT_UP_DOWN: InputFlags = 0b0000_0000_0001_0000;

pub const INPUT_DOWN_DOWN: InputFlags = 0b0000_0000_0010_0000;

pub const INPUT_LEFT_DOWN: InputFlags = 0b0000_0000_0100_0000;

pub const INPUT_RIGHT_DOWN: InputFlags = 0b0000_0000_1000_0000;

pub const INPUT_INTERACT_PRESSED: InputFlags = 0b0000_0001_0000_0000;

pub const INPUT_INTERACT_DOWN: InputFlags = 0b0000_0010_0000_0000;

/// Set when the left mouse button was pressed or released this frame.
pub const INPUT_LEFT_MOUSE_CHANGED: InputFlags = 0b0000_0100_0000_0000;

pub const INPUT_LEFT_MOUSE_DOWN: InputFlags = 0b0000_1000_0000_0000;

/// ASCII bytes typed this frame; a zero byte ends the used part early.
pub type TextInput = [u8; 16];

/// The one logical input decoded from the flag word.
#[derive(Clone, Copy, Debug, PartialEq, Eq, Structural)]
pub enum Input {
    NoChange,
    Dir(Dir),
    Interact,
}

/// Decoding priority: interact beats any directional combination; diagonal
/// pairs of held directions beat single held directions.
pub open spec fn spec_input_from_flags(flags: InputFlags) -> Input {
    if INPUT_INTERACT_PRESSED & flags != 0 {
        Input::Interact
    } else if (INPUT_UP_DOWN | INPUT_RIGHT_DOWN) & flags == (INPUT_UP_DOWN | INPUT_RIGHT_DOWN) {
        Input::Dir(Dir::UpRight)
    } else if (INPUT_DOWN_DOWN | INPUT_RIGHT_DOWN) & flags == (INPUT_DOWN_DOWN | INPUT_RIGHT_DOWN) {
        Input::Dir(Dir::DownRight)
    } else if (INPUT_DOWN_DOWN | INPUT_LEFT_DOWN) & flags == (INPUT_DOWN_DOWN | INPUT_LEFT_DOWN) {
        Input::Dir(Dir::DownLeft)
    } else if (INPUT_UP_DOWN | INPUT_LEFT_DOWN) & flags == (INPUT_UP_DOWN | INPUT_LEFT_DOWN) {
        Input::Dir(Dir::UpLeft)
    } else if INPUT_UP_DOWN & flags != 0 {
        Input::Dir(Dir::Up)
    } else if INPUT_DOWN_DOWN & flags != 0 {
        Input::Dir(Dir::Down)
    } else if INPUT_LEFT_DOWN & flags != 0 {
        Input::Dir(Dir::Left)
    } else if INPUT_RIGHT_DOWN & flags != 0 {
        Input::Dir(Dir::Right)
    } else {
        Input::NoChange
    }
}

impl Input {
    /// Decodes a flag word into the one logical input for the frame.
    pub fn from_flags(flags: InputFlags) -> (r: Self)
        ensures
            r == spec_input_from_flags(flags),
    {
        if INPUT_INTERACT_PRESSED & flags != 0 {
            Input::Interact
        } else if (INPUT_UP_DOWN | INPUT_RIGHT_DOWN) & flags == (INPUT_UP_DOWN | INPUT_RIGHT_DOWN) {
            Input::Dir(Dir::UpRight)
        } else if (INPUT_DOWN_DOWN | INPUT_RIGHT_DOWN) & flags == (INPUT_DOWN_DOWN | INPUT_RIGHT_DOWN) {
            Input::Dir(Dir::DownRight)
        } else if (INPUT_DOWN_DOWN | INPUT_LEFT_DOWN) & flags == (INPUT_DOWN_DOWN | INPUT_LEFT_DOWN) {
            Input::Dir(Dir::DownLeft)
        } else if (INPUT_UP_DOWN | INPUT_LEFT_DOWN) & flags == (INPUT_UP_DOWN | INPUT_LEFT_DOWN) {
            Input::Dir(Dir::UpLeft)
        } else if INPUT_UP_DOWN & flags != 0 {
            Input::Dir(Dir::Up)
        } else if INPUT_DOWN_DOWN & flags != 0 {
            Input::Dir(Dir::Down)
        } else if INPUT_LEFT_DOWN & flags != 0 {
            Input::Dir(Dir::Left)
        } else if INPUT_RIGHT_DOWN & flags != 0 {
            Input::Dir(Dir::Right)
        } else {
            Input::NoChange
        }
    }
}

} // verus!
