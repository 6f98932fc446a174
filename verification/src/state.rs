//! The board and UI state the per-frame update step owns: tile checked
//! states, per-row labels, the eye indicator, the pointer latch, and the
//! caller-supplied command sink.

use vstd::prelude::*;
use crate::cell;
use crate::draw::{
    self,
    CURSOR_BOUND,
    DrawXY,
    Sizes,
    SpriteKind,
    spec_cell_contains,
    spec_rect_contains,
    spec_tile_xy_from_draw,
    spec_top_label_rect,
    sizes_wf,
};
use crate::input::Dir;
use crate::tile;

verus! {

/// A caller-supplied, reusable sink for display commands: the update step
/// clears it and repopulates it every call. The platform layer may implement
/// it over pooled storage of its own.
pub trait ClearableStorage<A> {
    /// The values the sink holds, oldest first.
    spec fn contents(&self) -> Seq<A>;

    fn clear(&mut self)
        ensures
            final(self).contents() == Seq::<A>::empty(),
    ;

    fn push(&mut self, a: A)
        ensures
            final(self).contents() == old(self).contents().push(a),
    ;
}

impl<A> ClearableStorage<A> for Vec<A> {
    open spec fn contents(&self) -> Seq<A> {
        self@
    }

    fn clear(&mut self) {
        self.clear();
    }

    fn push(&mut self, a: A) {
        self.push(a);
    }
}

/// Cells in the whole grid.
pub const TILES_LENGTH: usize = 256;

/// One label per grid row.
pub const LABEL_COUNT: usize = 16;

/// Longest label the editor will grow; further typed bytes are dropped.
pub const LABEL_MAX_LEN: usize = 32;

/// The flat per-cell checked-state array, addressed by linear tile index.
#[derive(Clone, Debug)]
pub struct Tiles {
    pub tiles: Vec<cell::Status>,
}

impl Tiles {
    /// One entry per grid cell.
    pub open spec fn wf(self) -> bool {
        self.tiles@.len() == TILES_LENGTH
    }
}

impl Default for Tiles {
    /// Every cell unchecked.
    fn default() -> (r: Self)
        ensures
            r.wf(),
            forall|i: int| 0 <= i < TILES_LENGTH ==> r.tiles@[i] == cell::Status::Unchecked,
    {
        let mut tiles: Vec<cell::Status> = Vec::with_capacity(TILES_LENGTH);
        let mut i: usize = 0;
        while i < TILES_LENGTH
            invariant
                i <= TILES_LENGTH,
                tiles@.len() == i,
                forall|j: int| 0 <= j < i ==> tiles@[j] == cell::Status::Unchecked,
            decreases TILES_LENGTH - i,
        {
            tiles.push(cell::Status::Unchecked);
            i = i + 1;
        }
        Tiles { tiles }
    }
}

/// The eye indicator's visual state.
#[derive(Clone, Copy, Debug, PartialEq, Eq, Structural)]
pub enum EyeState {
    Idle,
    Moved(Dir),
    NarrowAnimLeft,
    NarrowAnimCenter,
    NarrowAnimRight,
    SmallPupil,
    Closed,
    HalfLid,
}

impl Default for EyeState {
    fn default() -> (r: Self)
        ensures
            r == EyeState::Idle,
    {
        EyeState::Idle
    }
}

/// The sprite showing an eye state.
pub open spec fn spec_eye_sprite(e: EyeState) -> SpriteKind {
    match e {
        EyeState::Idle => SpriteKind::NeutralEye,
        EyeState::Moved(dir) => SpriteKind::DirEye(dir),
        EyeState::NarrowAnimLeft => SpriteKind::NarrowLeftEye,
        EyeState::NarrowAnimCenter => SpriteKind::NarrowCenterEye,
        EyeState::NarrowAnimRight => SpriteKind::NarrowRightEye,
        EyeState::SmallPupil => SpriteKind::SmallPupilEye,
        EyeState::Closed => SpriteKind::ClosedEye,
        EyeState::HalfLid => SpriteKind::HalfLidEye,
    }
}

impl EyeState {
    /// The sprite that shows this state.
    pub fn sprite(&self) -> (r: SpriteKind)
        ensures
            r == spec_eye_sprite(*self),
    {
        match self {
            EyeState::Idle => SpriteKind::NeutralEye,
            EyeState::Moved(dir) => SpriteKind::DirEye(*dir),
            EyeState::NarrowAnimLeft => SpriteKind::NarrowLeftEye,
            EyeState::NarrowAnimCenter => SpriteKind::NarrowCenterEye,
            EyeState::NarrowAnimRight => SpriteKind::NarrowRightEye,
            EyeState::SmallPupil => SpriteKind::SmallPupilEye,
            EyeState::Closed => SpriteKind::ClosedEye,
            EyeState::HalfLid => SpriteKind::HalfLidEye,
        }
    }
}

/// The eye indicator: its tile position and visual state.
#[derive(Clone, Copy, Debug, PartialEq, Eq, Structural)]
pub struct Eye {
    pub xy: tile::XY,
    pub state: EyeState,
}

impl Eye {
    pub open spec fn wf(self) -> bool {
        self.xy.wf()
    }
}

impl Default for Eye {
    fn default() -> (r: Self)
        ensures
            r == (Eye { xy: tile::XY { x: tile::X(0), y: tile::Y(0) }, state: EyeState::Idle }),
    {
        Eye { xy: tile::XY { x: tile::X(0), y: tile::Y(0) }, state: EyeState::Idle }
    }
}

/// The left mouse button, as sampled this frame.
#[derive(Copy, Clone, Debug, PartialEq, Eq, Structural)]
pub enum ButtonState {
    Up,
    Down,
}

impl Default for ButtonState {
    fn default() -> (r: Self)
        ensures
            r == ButtonState::Up,
    {
        ButtonState::Up
    }
}

/// The pointer position, in draw space.
pub type CursorXY = DrawXY;

/// A hit-testable UI region.
#[derive(Clone, Copy, Debug, Eq, PartialEq, Structural)]
pub enum ClickArea {
    TileXY(tile::XY),
    Labels,
}

impl ClickArea {
    pub open spec fn wf(self) -> bool {
        match self {
            ClickArea::TileXY(txy) => txy.wf(),
            ClickArea::Labels => true,
        }
    }
}

/// Which interactions are live: checking cells, or editing labels.
#[derive(Clone, Copy, Debug, Eq, PartialEq, Structural)]
pub enum UiMode {
    Checking,
    EditLabels,
}

impl Default for UiMode {
    fn default() -> (r: Self)
        ensures
            r == UiMode::Checking,
    {
        UiMode::Checking
    }
}

/// Pointer and chrome state: mode, sampled button, cached layout, pointer
/// position, and the press-capture latch.
#[derive(Clone, Copy, Debug, PartialEq, Eq, Structural)]
pub struct Ui {
    pub mode: UiMode,
    pub left_mouse_button: ButtonState,
    pub sizes: Sizes,
    pub cursor_xy: CursorXY,
    pub last_pressed: Option<ClickArea>,
}

impl Default for Ui {
    fn default() -> (r: Self)
        ensures
            r == (Ui {
                mode: UiMode::Checking,
                left_mouse_button: ButtonState::Up,
                sizes: Sizes {
                    draw_wh: draw::DrawWH { w: 0, h: 0 },
                    play_xywh: draw::PlayXYWH { x: 0, y: 0, w: 0, h: 0 },
                    board_xywh: draw::BoardXYWH { x: 0, y: 0, w: 0, h: 0 },
                    tile_side_length: 0,
                },
                cursor_xy: DrawXY { x: 0, y: 0 },
                last_pressed: None::<ClickArea>,
            }),
            r.wf(),
    {
        Ui {
            mode: UiMode::Checking,
            left_mouse_button: ButtonState::Up,
            sizes: Sizes {
                draw_wh: draw::DrawWH { w: 0, h: 0 },
                play_xywh: draw::PlayXYWH { x: 0, y: 0, w: 0, h: 0 },
                board_xywh: draw::BoardXYWH { x: 0, y: 0, w: 0, h: 0 },
                tile_side_length: 0,
            },
            cursor_xy: DrawXY { x: 0, y: 0 },
            last_pressed: None,
        }
    }
}

/// Whether the pointer is over a region, by that region's own rectangle.
pub open spec fn spec_is_hovered(ui: Ui, area: ClickArea) -> bool {
    match area {
        ClickArea::TileXY(txy) => spec_cell_contains(ui.sizes, txy, ui.cursor_xy),
        ClickArea::Labels => spec_rect_contains(spec_top_label_rect(ui.sizes), ui.cursor_xy),
    }
}

/// The visual state of one tile under the pointer latch: the latched tile
/// shows Pressed while the button is held; any other tile shows plain
/// hovering, ignoring a capture that is not its own.
pub open spec fn spec_tile_state(ui: Ui, txy: tile::XY) -> cell::UiState {
    let hovered_state = if spec_is_hovered(ui, ClickArea::TileXY(txy)) {
        cell::UiState::Hover
    } else {
        cell::UiState::Idle
    };
    match ui.last_pressed {
        Some(ClickArea::TileXY(last_txy)) => {
            if last_txy == txy {
                match ui.left_mouse_button {
                    ButtonState::Up => hovered_state,
                    ButtonState::Down => cell::UiState::Pressed,
                }
            } else {
                hovered_state
            }
        },
        _ => hovered_state,
    }
}

/// The region under the pointer: the label strip is tested first, then the
/// board's cells.
pub open spec fn spec_click_area(ui: Ui) -> Option<ClickArea> {
    if spec_rect_contains(spec_top_label_rect(ui.sizes), ui.cursor_xy) {
        Some(ClickArea::Labels)
    } else {
        match spec_tile_xy_from_draw(ui.sizes, ui.cursor_xy) {
            Some(txy) => Some(ClickArea::TileXY(txy)),
            None => None,
        }
    }
}

impl Ui {
    /// A usable UI: a layout out of [`draw::fresh_sizes`], a pointer within
    /// the machine bound, and a valid latched coordinate.
    pub open spec fn wf(self) -> bool {
        &&& sizes_wf(self.sizes)
        &&& -CURSOR_BOUND <= self.cursor_xy.x <= CURSOR_BOUND
        &&& -CURSOR_BOUND <= self.cursor_xy.y <= CURSOR_BOUND
        &&& match self.last_pressed {
            Some(area) => area.wf(),
            None => true,
        }
    }

    /// Whether the pointer is over the given region.
    pub fn is_hovered(&self, area: ClickArea) -> (b: bool)
        requires
            sizes_wf(self.sizes),
            area.wf(),
        ensures
            b == spec_is_hovered(*self, area),
    {
        let rect = match area {
            ClickArea::TileXY(txy) => {
                let xy: DrawXY = draw::draw_xy_from_tile(&self.sizes, txy);
                draw::Rect {
                    min_x: xy.x,
                    min_y: xy.y,
                    max_x: xy.x + self.sizes.tile_side_length,
                    max_y: xy.y + self.sizes.tile_side_length,
                }
            },
            ClickArea::Labels => draw::top_label_rect(&self.sizes),
        };
        rect.contains(self.cursor_xy)
    }

    /// The visual state of one tile this frame.
    pub fn tile_state(&self, txy: tile::XY) -> (r: cell::UiState)
        requires
            sizes_wf(self.sizes),
            txy.wf(),
        ensures
            r == spec_tile_state(*self, txy),
    {
        match self.last_pressed {
            Some(ClickArea::TileXY(last_txy)) => {
                if last_txy == txy {
                    match self.left_mouse_button {
                        ButtonState::Up => if self.is_hovered(ClickArea::TileXY(txy)) {
                            cell::UiState::Hover
                        } else {
                            cell::UiState::Idle
                        },
                        ButtonState::Down => cell::UiState::Pressed,
                    }
                } else {
                    if self.is_hovered(ClickArea::TileXY(txy)) {
                        cell::UiState::Hover
                    } else {
                        cell::UiState::Idle
                    }
                }
            },
            _ => {
                if self.is_hovered(ClickArea::TileXY(txy)) {
                    cell::UiState::Hover
                } else {
                    cell::UiState::Idle
                }
            },
        }
    }

    /// The region under the pointer, if any.
    pub fn click_area(&self) -> (r: Option<ClickArea>)
        requires
            self.wf(),
        ensures
            r == spec_click_area(*self),
            r matches Some(area) ==> area.wf(),
    {
        if draw::top_label_rect(&self.sizes).contains(self.cursor_xy) {
            return Some(ClickArea::Labels);
        }
        match draw::tile_xy_from_draw(&self.sizes, self.cursor_xy) {
            Some(txy) => Some(ClickArea::TileXY(txy)),
            None => None,
        }
    }
}

/// The board: the grid of tiles, their row labels, and the eye.
#[derive(Clone, Debug)]
pub struct Board {
    pub tiles: Tiles,
    pub labels: Vec<Vec<u8>>,
    pub eye: Eye,
}

impl Board {
    /// A full grid, one bounded label per row, eye on the grid.
    pub open spec fn wf(self) -> bool {
        &&& self.tiles.wf()
        &&& self.labels@.len() == LABEL_COUNT
        &&& forall|i: int| 0 <= i < LABEL_COUNT ==> self.labels@[i]@.len() <= LABEL_MAX_LEN
        &&& self.eye.wf()
    }

    /// The labels as plain byte sequences.
    pub open spec fn labels_view(self) -> Seq<Seq<u8>> {
        Seq::new(self.labels@.len(), |i: int| self.labels@[i]@)
    }
}

impl Default for Board {
    /// Every cell unchecked, every label empty, the eye idle at the origin.
    fn default() -> (r: Self)
        ensures
            r.wf(),
            forall|i: int| 0 <= i < TILES_LENGTH ==> r.tiles.tiles@[i] == cell::Status::Unchecked,
            forall|i: int| 0 <= i < LABEL_COUNT ==> r.labels_view()[i] == Seq::<u8>::empty(),
            r.eye == (Eye { xy: tile::XY { x: tile::X(0), y: tile::Y(0) }, state: EyeState::Idle }),
    {
        let mut labels: Vec<Vec<u8>> = Vec::with_capacity(LABEL_COUNT);
        let mut i: usize = 0;
        while i < LABEL_COUNT
            invariant
                i <= LABEL_COUNT,
                labels@.len() == i,
                forall|j: int| 0 <= j < i ==> labels@[j]@ == Seq::<u8>::empty(),
            decreases LABEL_COUNT - i,
        {
            labels.push(Vec::new());
            i = i + 1;
        }
        Board { tiles: Tiles::default(), labels, eye: Eye::default() }
    }
}

/// Frames in one whole animation cycle; chosen for its many small factors,
/// so several fixed cadences stay in phase across the wrap.
pub const ANIMATION_TIMER_LENGTH: u16 = 60 * 60 * 18;

/// The global animation timer type.
pub type AnimationTimer = u16;

/// The whole interactive state: one exclusively owned value, stepped only
/// by [`crate::update::update`].
#[derive(Clone, Debug)]
pub struct State {
    pub ui: Ui,
    pub board: Board,
    pub animation_timer: AnimationTimer,
}

impl State {
    pub open spec fn wf(self) -> bool {
        &&& self.ui.wf()
        &&& self.board.wf()
        &&& self.animation_timer < ANIMATION_TIMER_LENGTH
    }
}

impl Default for State {
    /// A fresh board in Checking mode with the timer at zero.
    fn default() -> (r: Self)
        ensures
            r.wf(),
            r.ui.mode == UiMode::Checking,
            r.ui.left_mouse_button == ButtonState::Up,
            r.ui.sizes == (Sizes {
                draw_wh: draw::DrawWH { w: 0, h: 0 },
                play_xywh: draw::PlayXYWH { x: 0, y: 0, w: 0, h: 0 },
                board_xywh: draw::BoardXYWH { x: 0, y: 0, w: 0, h: 0 },
                tile_side_length: 0,
            }),
            r.ui.cursor_xy == (DrawXY { x: 0, y: 0 }),
            r.ui.last_pressed is None,
            forall|i: int| 0 <= i < TILES_LENGTH ==> r.board.tiles.tiles@[i]
                == cell::Status::Unchecked,
            forall|i: int| 0 <= i < LABEL_COUNT ==> r.board.labels_view()[i] == Seq::<u8>::empty(),
            r.board.eye == (Eye {
                xy: tile::XY { x: tile::X(0), y: tile::Y(0) },
                state: EyeState::Idle,
            }),
            r.animation_timer == 0,
    {
        State { ui: Ui::default(), board: Board::default(), animation_timer: 0 }
    }
}

/// The current layout, for layers that convert window-space pointer events
/// before calling the update step.
pub fn sizes(state: &State) -> (r: Sizes)
    ensures
        r == state.ui.sizes,
{
    state.ui.sizes
}

} // verus!
