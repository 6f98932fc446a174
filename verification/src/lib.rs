//! Interactive model of a tile-grid checklist board: a fixed 16x16 grid of
//! checkable cells, an animated eye indicator driven by directional input,
//! and a two-mode UI (checking cells vs. editing per-row labels) stepped once
//! per frame from an input snapshot.
//!
//! Draw-space geometry is carried in signed fixed-point units
//! ([`draw::SUBPIXELS_PER_PIXEL`] subunits to the pixel) so that the layout
//! and the tile hit-testing are exact.

pub mod cell;
pub mod draw;
pub mod input;
pub mod state;
pub mod tile;
pub mod update;

pub use cell::UiState;
pub use draw::{
    Command,
    DrawH,
    DrawLength,
    DrawW,
    DrawWH,
    DrawX,
    DrawXY,
    DrawY,
    Rect,
    Sizes,
    SpriteKind,
    SpriteSpec,
    TextKind,
    TextSpec,
    fresh_sizes,
};
pub use input::{
    ArrowKind,
    Dir,
    Input,
    InputFlags,
    INPUT_DOWN_DOWN,
    INPUT_DOWN_PRESSED,
    INPUT_INTERACT_DOWN,
    INPUT_INTERACT_PRESSED,
    INPUT_LEFT_DOWN,
    INPUT_LEFT_MOUSE_CHANGED,
    INPUT_LEFT_MOUSE_DOWN,
    INPUT_LEFT_PRESSED,
    INPUT_RIGHT_DOWN,
    INPUT_RIGHT_PRESSED,
    INPUT_UP_DOWN,
    INPUT_UP_PRESSED,
    TextInput,
};
pub use state::{
    ClearableStorage,
    CursorXY,
    State,
    Tiles,
    TILES_LENGTH,
    Ui,
    UiMode,
    sizes,
};
pub use update::update;
