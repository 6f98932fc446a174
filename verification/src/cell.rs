//! One cell of the checklist grid: its persistent checked state and its
//! transient pointer-interaction state.

use vstd::prelude::*;
use crate::draw::SpriteKind;

verus! {

/// Pointer-interaction state of a cell, derived each frame.
#[derive(Copy, Clone, Debug, Eq, PartialEq, Structural)]
pub enum UiState {
    Idle,
    Hover,
    Pressed,
}

/// Persistent checked state of a cell, toggled by a committed click.
#[derive(Copy, Clone, Debug, Eq, PartialEq, Structural)]
pub enum Status {
    Unchecked,
    Checked,
}

impl Default for Status {
    /// Cells start unchecked.
    fn default() -> (r: Self)
        ensures
            r == Status::Unchecked,
    {
        Status::Unchecked
    }
}

/// The sprite that shows this checked state under this pointer state.
pub open spec fn spec_sprite_fn(status: Status, ui: UiState) -> SpriteKind {
    match status {
        Status::Unchecked => SpriteKind::Unchecked(ui),
        Status::Checked => SpriteKind::Checked(ui),
    }
}

impl Status {
    /// Selects the sprite for a cell in this checked state, shown in the
    /// given pointer state.
    pub fn sprite_fn(self, ui: UiState) -> (r: SpriteKind)
        ensures
            r == spec_sprite_fn(self, ui),
    {
        match self {
            Status::Unchecked => SpriteKind::Unchecked(ui),
            Status::Checked => SpriteKind::Checked(ui),
        }
    }
}

} // verus!
