//! Draw-space geometry: fixed-point lengths, the layout that fits the board
//! and its chrome into a window, the tile/draw coordinate mapper, and the
//! display command list handed to a rendering backend.
//!
//! A draw-space length is a signed count of subpixels,
//! [`SUBPIXELS_PER_PIXEL`] to the pixel, so every computation here is exact.

use vstd::prelude::*;
use vstd::arithmetic::div_mod::{
    lemma_div_multiples_vanish,
    lemma_fundamental_div_mod_converse_div,
};
use crate::tile;

verus! {

/// A draw-space length, in subpixels.
pub type DrawLength = i64;

pub type DrawX = DrawLength;

pub type DrawY = DrawLength;

pub type DrawW = DrawLength;

pub type DrawH = DrawLength;

pub type PlayX = DrawLength;

pub type PlayY = DrawLength;

pub type PlayW = DrawLength;

pub type PlayH = DrawLength;

pub type BoardX = DrawLength;

pub type BoardY = DrawLength;

pub type BoardW = DrawLength;

pub type BoardH = DrawLength;

pub type TileSideLength = DrawLength;

pub type TileCount = i64;

/// Subpixels in one window pixel.
pub const SUBPIXELS_PER_PIXEL: DrawLength = 16;

/// Largest window width or height, in subpixels, this geometry accepts.
/// A machine limit: it keeps every product here inside `i64`.
pub const DRAW_MAX: DrawLength = 0x4000_0000;

/// Bound on every rectangle coordinate the layout can produce.
pub const GEOM_BOUND: DrawLength = 4 * 0x4000_0000;

/// Bound on a pointer coordinate the hit-testing accepts; a machine limit.
pub const CURSOR_BOUND: DrawLength = 16 * 0x4000_0000;

/// Tile side length used when the window size is degenerate.
pub const FALLBACK_BOUND: DrawLength = 100 * 16;

/// Tiles of chrome to the left of the centre column.
pub const LEFT_UI_WIDTH_TILES: TileCount = 9;

/// Tiles of chrome to the right of the centre column.
pub const RIGHT_UI_WIDTH_TILES: TileCount = 9;

/// Width of the centre column, in tiles.
pub const CENTER_UI_WIDTH_TILES: TileCount = 16;

/// Tiles across the board.
pub const BOARD_W_TILES: TileCount = 16;

/// Tiles down the board.
pub const BOARD_H_TILES: TileCount = 16;

/// Height of the label strip above the board, in tiles.
pub const TOP_LABELS_HEIGHT_TILES: TileCount = 1;

/// Height of the centre column, in tiles.
pub const CENTER_UI_HEIGHT_TILES: TileCount = 16 + 1;

/// Centre-column tiles that are not board rows.
pub const NON_BOARD_H_TILES: TileCount = 1;

/// Tiles across the whole UI.
pub const DRAW_WIDTH_TILES: TileCount = 9 + 16 + 9;

/// The rectangle holding the whole UI.
#[derive(Clone, Copy, Debug, Default, PartialEq, Eq, Structural)]
pub struct PlayXYWH {
    pub x: PlayX,
    pub y: PlayY,
    pub w: PlayW,
    pub h: PlayH,
}

/// The rectangle holding the board's tiles.
#[derive(Clone, Copy, Debug, Default, PartialEq, Eq, Structural)]
pub struct BoardXYWH {
    pub x: BoardX,
    pub y: BoardY,
    pub w: BoardW,
    pub h: BoardH,
}

/// A point in draw space.
#[derive(Clone, Copy, Debug, Default, PartialEq, Eq, Structural)]
pub struct DrawXY {
    pub x: DrawX,
    pub y: DrawY,
}


impl std::ops::Add for DrawXY {
    type Output = DrawXY;

    /// Componentwise offset of one point by another.
    fn add(self, other: Self) -> Self {
        DrawXY { x: self.x + other.x, y: self.y + other.y }
    }
}

impl vstd::std_specs::ops::AddSpecImpl for DrawXY {
    open spec fn obeys_add_spec() -> bool {
        true
    }

    open spec fn add_req(self, rhs: DrawXY) -> bool {
        &&& i64::MIN <= self.x + rhs.x <= i64::MAX
        &&& i64::MIN <= self.y + rhs.y <= i64::MAX
    }

    open spec fn add_spec(self, rhs: DrawXY) -> DrawXY {
        DrawXY { x: (self.x + rhs.x) as i64, y: (self.y + rhs.y) as i64 }
    }
}

/// A width and height in draw space.
#[derive(Clone, Copy, Debug, Default, PartialEq, Eq, Structural)]
pub struct DrawWH {
    pub w: DrawW,
    pub h: DrawH,
}

/// An axis-aligned rectangle, half-open on both axes.
#[derive(Clone, Copy, Debug, Default, PartialEq, Eq, Structural)]
pub struct Rect {
    pub min_x: DrawX,
    pub min_y: DrawY,
    pub max_x: DrawX,
    pub max_y: DrawY,
}

/// Whether a rectangle holds a point; half-open, so abutting rectangles
/// share no point.
pub open spec fn spec_rect_contains(r: Rect, p: DrawXY) -> bool {
    &&& r.min_x <= p.x < r.max_x
    &&& r.min_y <= p.y < r.max_y
}

impl Rect {
    /// Half-open containment test, so abutting rectangles can never both
    /// report the same point.
    pub fn contains(&self, point: DrawXY) -> (b: bool)
        ensures
            b == spec_rect_contains(*self, point),
    {
        point.x >= self.min_x && point.x < self.max_x && point.y >= self.min_y && point.y
            < self.max_y
    }
}

/// Everything the renderer and the hit-testing need to know about the
/// current window: recomputed only when the window size changes.
#[derive(Clone, Copy, Debug, Default, PartialEq, Eq, Structural)]
pub struct Sizes {
    pub draw_wh: DrawWH,
    pub play_xywh: PlayXYWH,
    pub board_xywh: BoardXYWH,
    pub tile_side_length: TileSideLength,
}

/// The shape every [`Sizes`] out of [`fresh_sizes`] has: a whole-pixel,
/// bounded tile side, and a board rectangle that is exactly a grid of such
/// tiles.
pub open spec fn sizes_wf(s: Sizes) -> bool {
    &&& -DRAW_MAX <= s.draw_wh.w <= DRAW_MAX
    &&& -DRAW_MAX <= s.draw_wh.h <= DRAW_MAX
    &&& 0 <= s.tile_side_length <= DRAW_MAX
    &&& s.tile_side_length as int % (SUBPIXELS_PER_PIXEL as int) == 0
    &&& s.board_xywh.w == s.tile_side_length * (BOARD_W_TILES as int)
    &&& s.board_xywh.h == s.tile_side_length * (BOARD_H_TILES as int)
    &&& -GEOM_BOUND <= s.board_xywh.x <= GEOM_BOUND
    &&& -GEOM_BOUND <= s.board_xywh.y <= GEOM_BOUND
    &&& 0 <= s.play_xywh.w <= GEOM_BOUND
    &&& 0 <= s.play_xywh.h <= GEOM_BOUND
    &&& -GEOM_BOUND <= s.play_xywh.x <= GEOM_BOUND
    &&& -GEOM_BOUND <= s.play_xywh.y <= GEOM_BOUND
}

/// Halving that discards towards zero, as the pixel-centring offsets do.
pub open spec fn spec_half_toward_zero(a: int) -> int {
    if a >= 0 {
        a / 2
    } else {
        -((-a) / 2)
    }
}

fn half_toward_zero(a: i64) -> (r: i64)
    requires
        -CURSOR_BOUND <= a <= CURSOR_BOUND,
    ensures
        r == spec_half_toward_zero(a as int),
{
    if a >= 0 {
        a / 2
    } else {
        -((-a) / 2)
    }
}

/// The governing raw bound, tile side, and the two centring offsets chosen
/// from a window size: the tighter of the width-fitting and height-fitting
/// bounds governs; bounds within half a pixel of each other count as tied
/// and split the leftover fraction between both axes; a negative (degenerate)
/// window size falls back to a fixed safe side length.
pub open spec fn spec_layout_bounds(wh: DrawWH) -> (int, int, int, int) {
    if wh.w < 0 || wh.h < 0 {
        (FALLBACK_BOUND as int, FALLBACK_BOUND as int, 0int, 0int)
    } else {
        let wb = wh.w as int / (DRAW_WIDTH_TILES as int);
        let hb = wh.h as int / (CENTER_UI_HEIGHT_TILES as int);
        let diff = if wb >= hb {
            wb - hb
        } else {
            hb - wb
        };
        if diff < SUBPIXELS_PER_PIXEL as int / 2 {
            (hb, hb - hb % 16, (hb % 16) / 2, (hb % 16) / 2)
        } else if wb > hb {
            (hb, hb - hb % 16, 0int, (hb % 16) / 2)
        } else {
            (wb, wb - wb % 16, (wb % 16) / 2, 0int)
        }
    }
}

/// The layout computed from a window size; pure, and recomputed by the
/// update step only when the window size changed.
pub open spec fn spec_fresh_sizes(wh: DrawWH) -> Sizes {
    let (raw_bound, tile_side, board_x_offset, board_y_offset0) = spec_layout_bounds(wh);
    let board_y_offset = board_y_offset0 + (NON_BOARD_H_TILES as int) * tile_side / 2;
    let play_w = raw_bound * (DRAW_WIDTH_TILES as int);
    let play_h = raw_bound * (CENTER_UI_HEIGHT_TILES as int);
    let play_x = spec_half_toward_zero(wh.w - play_w);
    let play_y = spec_half_toward_zero(wh.h - play_h);
    let board_w = tile_side * (BOARD_W_TILES as int);
    let board_h = tile_side * (BOARD_H_TILES as int);
    let board_x = play_x + board_x_offset + (play_w - board_w) / 2;
    let board_y = play_y + board_y_offset + (play_h - board_h) / 2;
    Sizes {
        draw_wh: wh,
        play_xywh: PlayXYWH {
            x: play_x as i64,
            y: play_y as i64,
            w: play_w as i64,
            h: play_h as i64,
        },
        board_xywh: BoardXYWH {
            x: board_x as i64,
            y: board_y as i64,
            w: board_w as i64,
            h: board_h as i64,
        },
        tile_side_length: tile_side as i64,
    }
}

/// Computes the layout for a window size: fits a fixed-aspect grid plus its
/// chrome into the window, truncating the tile side to whole pixels and
/// centring the leftover fraction.
#[verifier::rlimit(50)]
pub fn fresh_sizes(wh: DrawWH) -> (s: Sizes)
    requires
        -DRAW_MAX <= wh.w <= DRAW_MAX,
        -DRAW_MAX <= wh.h <= DRAW_MAX,
    ensures
        s == spec_fresh_sizes(wh),
        sizes_wf(s),
{
    let (raw_bound, tile_side, board_x_offset, board_y_offset0): (i64, i64, i64, i64) = if wh.w < 0
        || wh.h < 0 {
        (FALLBACK_BOUND, FALLBACK_BOUND, 0, 0)
    } else {
        let wb = wh.w / DRAW_WIDTH_TILES;
        let hb = wh.h / CENTER_UI_HEIGHT_TILES;
        let diff = if wb >= hb {
            wb - hb
        } else {
            hb - wb
        };
        if diff < SUBPIXELS_PER_PIXEL / 2 {
            (hb, hb - hb % 16, (hb % 16) / 2, (hb % 16) / 2)
        } else if wb > hb {
            (hb, hb - hb % 16, 0, (hb % 16) / 2)
        } else {
            (wb, wb - wb % 16, (wb % 16) / 2, 0)
        }
    };
    proof {
        broadcast use vstd::arithmetic::div_mod::lemma_div_pos_is_pos;
        broadcast use vstd::arithmetic::div_mod::lemma_div_nonincreasing;
        broadcast use vstd::arithmetic::div_mod::lemma_mod_division_less_than_divisor;
        broadcast use vstd::arithmetic::div_mod::lemma_fundamental_div_mod;
        broadcast use vstd::arithmetic::div_mod::lemma_mod_multiples_basic;

        assert(DRAW_WIDTH_TILES == 34 && CENTER_UI_HEIGHT_TILES == 17 && BOARD_W_TILES == 16
            && BOARD_H_TILES == 16 && NON_BOARD_H_TILES == 1);
        assert(0 <= raw_bound <= DRAW_MAX);
        assert(0 <= tile_side <= raw_bound);
        assert(tile_side as int % 16 == 0);
        assert(0 <= board_x_offset <= 8);
        assert(0 <= board_y_offset0 <= 8);
    }
    let board_y_offset = board_y_offset0 + NON_BOARD_H_TILES * tile_side / 2;
    let play_w = raw_bound * DRAW_WIDTH_TILES;
    let play_h = raw_bound * CENTER_UI_HEIGHT_TILES;
    let play_x = half_toward_zero(wh.w - play_w);
    let play_y = half_toward_zero(wh.h - play_h);
    let board_w = tile_side * BOARD_W_TILES;
    let board_h = tile_side * BOARD_H_TILES;
    let board_x = play_x + board_x_offset + (play_w - board_w) / 2;
    let board_y = play_y + board_y_offset + (play_h - board_h) / 2;
    Sizes {
        draw_wh: wh,
        play_xywh: PlayXYWH { x: play_x, y: play_y, w: play_w, h: play_h },
        board_xywh: BoardXYWH { x: board_x, y: board_y, w: board_w, h: board_h },
        tile_side_length: tile_side,
    }
}

/// Draw-space x of a tile column's left edge: linear interpolation across
/// the board rectangle.
pub open spec fn spec_tile_draw_x(s: Sizes, tx: int) -> int {
    s.board_xywh.x + s.board_xywh.w * tx / (BOARD_W_TILES as int)
}

/// Draw-space y of a tile row's top edge.
pub open spec fn spec_tile_draw_y(s: Sizes, ty: int) -> int {
    s.board_xywh.y + s.board_xywh.h * ty / (BOARD_H_TILES as int)
}

/// Draw-space point of a tile's upper-left corner.
pub fn draw_xy_from_tile(sizes: &Sizes, txy: tile::XY) -> (r: DrawXY)
    requires
        sizes_wf(*sizes),
        txy.wf(),
    ensures
        r.x == spec_tile_draw_x(*sizes, txy.x.0 as int),
        r.y == spec_tile_draw_y(*sizes, txy.y.0 as int),
        sizes.board_xywh.x <= r.x <= sizes.board_xywh.x + sizes.board_xywh.w,
        sizes.board_xywh.y <= r.y <= sizes.board_xywh.y + sizes.board_xywh.h,
{
    proof {
        broadcast use vstd::arithmetic::div_mod::lemma_div_pos_is_pos;
        broadcast use vstd::arithmetic::div_mod::lemma_div_nonincreasing;
        broadcast use vstd::arithmetic::div_mod::lemma_div_is_ordered;
        broadcast use vstd::arithmetic::div_mod::lemma_div_multiples_vanish;

        assert(0 <= sizes.board_xywh.w * (txy.x.0 as int) <= 15 * (sizes.board_xywh.w as int))
            by (nonlinear_arith)
            requires
                0 <= sizes.board_xywh.w,
                0 <= txy.x.0 <= 15,
        ;
        assert(0 <= sizes.board_xywh.h * (txy.y.0 as int) <= 15 * (sizes.board_xywh.h as int))
            by (nonlinear_arith)
            requires
                0 <= sizes.board_xywh.h,
                0 <= txy.y.0 <= 15,
        ;
        assert(sizes.board_xywh.w * (txy.x.0 as int) / 16 <= sizes.board_xywh.w) by {
            assert(16 * (sizes.board_xywh.w as int) / 16 == sizes.board_xywh.w);
            assert(sizes.board_xywh.w * (txy.x.0 as int) / 16 <= 16 * (
            sizes.board_xywh.w as int) / 16);
        }
        assert(sizes.board_xywh.h * (txy.y.0 as int) / 16 <= sizes.board_xywh.h) by {
            assert(16 * (sizes.board_xywh.h as int) / 16 == sizes.board_xywh.h);
            assert(sizes.board_xywh.h * (txy.y.0 as int) / 16 <= 16 * (
            sizes.board_xywh.h as int) / 16);
        }
    }
    let tx = txy.x.0 as i64;
    let ty = txy.y.0 as i64;
    DrawXY {
        x: sizes.board_xywh.x + sizes.board_xywh.w * tx / BOARD_W_TILES,
        y: sizes.board_xywh.y + sizes.board_xywh.h * ty / BOARD_H_TILES,
    }
}

/// The tile cell holding a draw-space point, if the point is over the board:
/// the inverse interpolation, valid only while both fractional coordinates
/// land inside the grid.
pub open spec fn spec_tile_xy_from_draw(s: Sizes, dxy: DrawXY) -> Option<tile::XY> {
    if s.board_xywh.w <= 0 || s.board_xywh.h <= 0 {
        None
    } else {
        let relx = dxy.x - s.board_xywh.x;
        let rely = dxy.y - s.board_xywh.y;
        if 0 <= relx < s.board_xywh.w && 0 <= rely < s.board_xywh.h {
            Some(tile::XY {
                x: tile::X((relx * (BOARD_W_TILES as int) / (s.board_xywh.w as int)) as u8),
                y: tile::Y((rely * (BOARD_H_TILES as int) / (s.board_xywh.h as int)) as u8),
            })
        } else {
            None
        }
    }
}

/// Hit-tests a draw-space point against the board, reporting which tile cell
/// holds it, or that it is not over the board.
pub fn tile_xy_from_draw(sizes: &Sizes, dxy: DrawXY) -> (r: Option<tile::XY>)
    requires
        sizes_wf(*sizes),
        -CURSOR_BOUND <= dxy.x <= CURSOR_BOUND,
        -CURSOR_BOUND <= dxy.y <= CURSOR_BOUND,
    ensures
        r == spec_tile_xy_from_draw(*sizes, dxy),
        r is Some ==> r.unwrap().wf(),
{
    let bw = sizes.board_xywh.w;
    let bh = sizes.board_xywh.h;
    if bw <= 0 || bh <= 0 {
        return None;
    }
    let relx = dxy.x - sizes.board_xywh.x;
    let rely = dxy.y - sizes.board_xywh.y;
    if 0 <= relx && relx < bw && 0 <= rely && rely < bh {
        proof {
            broadcast use vstd::arithmetic::div_mod::lemma_div_pos_is_pos;

            assert((relx * 16) / (bw as int) < 16) by {
                vstd::arithmetic::div_mod::lemma_multiply_divide_lt(
                    relx * 16,
                    bw as int,
                    16,
                );
                assert(relx * 16 < (bw as int) * 16) by (nonlinear_arith)
                    requires
                        relx < bw,
                ;
            }
            assert((rely * 16) / (bh as int) < 16) by {
                vstd::arithmetic::div_mod::lemma_multiply_divide_lt(
                    rely * 16,
                    bh as int,
                    16,
                );
                assert(rely * 16 < (bh as int) * 16) by (nonlinear_arith)
                    requires
                        rely < bh,
                ;
            }
        }
        let fx = relx * BOARD_W_TILES / bw;
        let fy = rely * BOARD_H_TILES / bh;
        Some(tile::XY { x: tile::X(fx as u8), y: tile::Y(fy as u8) })
    } else {
        None
    }
}

/// A margin sized from the play area's smaller side.
pub open spec fn spec_margin(s: Sizes) -> int {
    (if s.play_xywh.w < s.play_xywh.h {
        s.play_xywh.w as int
    } else {
        s.play_xywh.h as int
    }) / 32
}

/// One thirty-second of the play area's smaller side.
pub fn margin(sizes: &Sizes) -> (r: DrawLength)
    requires
        sizes_wf(*sizes),
    ensures
        r == spec_margin(*sizes),
        0 <= r <= GEOM_BOUND,
{
    let smaller_side = if sizes.play_xywh.w < sizes.play_xywh.h {
        sizes.play_xywh.w
    } else {
        sizes.play_xywh.h
    };
    smaller_side / 32
}

/// Width and height of one label slot: one tile.
pub fn label_wh(sizes: &Sizes) -> (r: DrawWH)
    ensures
        r == (DrawWH { w: sizes.tile_side_length, h: sizes.tile_side_length }),
{
    DrawWH { w: sizes.tile_side_length, h: sizes.tile_side_length }
}

/// The label strip: one tile tall, directly above the board, one slot per
/// column.
pub open spec fn spec_top_label_rect(s: Sizes) -> Rect {
    Rect {
        min_x: s.board_xywh.x,
        min_y: (s.board_xywh.y - s.tile_side_length) as i64,
        max_x: (s.board_xywh.x + 16 * s.tile_side_length) as i64,
        max_y: s.board_xywh.y,
    }
}

/// Rectangle of the label strip above the board.
pub fn top_label_rect(sizes: &Sizes) -> (r: Rect)
    requires
        sizes_wf(*sizes),
    ensures
        r == spec_top_label_rect(*sizes),
{
    let label_wh = label_wh(sizes);
    let zero_xy = draw_xy_from_tile(sizes, tile::XY { x: tile::X(0), y: tile::Y(0) });
    proof {
        assert(sizes.board_xywh.w * 0int == 0);
        assert(0int / 16 == 0);
        assert(sizes.board_xywh.h * 0int == 0);
    }
    Rect {
        min_x: zero_xy.x,
        min_y: zero_xy.y - label_wh.h,
        max_x: zero_xy.x + 16 * label_wh.w,
        max_y: zero_xy.y,
    }
}

/// The strip one tile wide beside the board's left edge, plus the board's
/// first column.
pub open spec fn spec_left_label_rect(s: Sizes) -> Rect {
    Rect {
        min_x: (s.board_xywh.x - s.tile_side_length) as i64,
        min_y: s.board_xywh.y,
        max_x: (s.board_xywh.x + s.tile_side_length) as i64,
        max_y: (s.board_xywh.y + 16 * s.tile_side_length) as i64,
    }
}

/// Rectangle of the label strip beside the board.
pub fn left_label_rect(sizes: &Sizes) -> (r: Rect)
    requires
        sizes_wf(*sizes),
    ensures
        r == spec_left_label_rect(*sizes),
{
    let label_wh = label_wh(sizes);
    let zero_xy = draw_xy_from_tile(sizes, tile::XY { x: tile::X(0), y: tile::Y(0) });
    proof {
        assert(sizes.board_xywh.w * 0int == 0);
        assert(0int / 16 == 0);
        assert(sizes.board_xywh.h * 0int == 0);
    }
    Rect {
        min_x: zero_xy.x - label_wh.h,
        min_y: zero_xy.y,
        max_x: zero_xy.x + label_wh.h,
        max_y: zero_xy.y + 16 * label_wh.h,
    }
}

/// A tile's hit-test cell: half-open square of one tile side, anchored at
/// the tile's draw-space corner.
pub open spec fn spec_cell_contains(s: Sizes, txy: tile::XY, p: DrawXY) -> bool {
    &&& spec_tile_draw_x(s, txy.x.0 as int) <= p.x < spec_tile_draw_x(s, txy.x.0 as int)
        + s.tile_side_length
    &&& spec_tile_draw_y(s, txy.y.0 as int) <= p.y < spec_tile_draw_y(s, txy.y.0 as int)
        + s.tile_side_length
}

/// Round trip with tolerance: a tile's draw-space corner, nudged by up to an
/// eighth of a tile side right and down, hit-tests back to the same tile.
pub proof fn lemma_draw_tile_round_trip(s: Sizes, txy: tile::XY, dx: int, dy: int)
    requires
        sizes_wf(s),
        txy.wf(),
        s.tile_side_length > 0,
        0 <= dx <= s.tile_side_length / 8,
        0 <= dy <= s.tile_side_length / 8,
    ensures
        spec_tile_xy_from_draw(
            s,
            DrawXY {
                x: (spec_tile_draw_x(s, txy.x.0 as int) + dx) as i64,
                y: (spec_tile_draw_y(s, txy.y.0 as int) + dy) as i64,
            },
        ) == Some(txy),
{
    let tsl = s.tile_side_length as int;
    let bw = s.board_xywh.w as int;
    let bh = s.board_xywh.h as int;
    let tx = txy.x.0 as int;
    let ty = txy.y.0 as int;
    assert(tsl / 8 < tsl) by (nonlinear_arith)
        requires
            tsl >= 1,
    ;
    assert(bw * tx / 16 == tsl * tx) by {
        assert(bw * tx == 16 * (tsl * tx)) by (nonlinear_arith)
            requires
                bw == tsl * 16,
        ;
        lemma_div_multiples_vanish(tsl * tx, 16);
    }
    assert(bh * ty / 16 == tsl * ty) by {
        assert(bh * ty == 16 * (tsl * ty)) by (nonlinear_arith)
            requires
                bh == tsl * 16,
        ;
        lemma_div_multiples_vanish(tsl * ty, 16);
    }
    let relx = tsl * tx + dx;
    let rely = tsl * ty + dy;
    assert(0 <= relx < bw && 0 <= rely < bh) by (nonlinear_arith)
        requires
            relx == tsl * tx + dx,
            rely == tsl * ty + dy,
            bw == tsl * 16,
            bh == tsl * 16,
            0 <= tx <= 15,
            0 <= ty <= 15,
            0 <= dx < tsl,
            0 <= dy < tsl,
    ;
    assert(relx * 16 / bw == tx) by {
        assert(relx * 16 == tx * bw + 16 * dx) by (nonlinear_arith)
            requires
                relx == tsl * tx + dx,
                bw == tsl * 16,
        ;
        lemma_fundamental_div_mod_converse_div(relx * 16, bw, tx, 16 * dx);
    }
    assert(rely * 16 / bh == ty) by {
        assert(rely * 16 == ty * bh + 16 * dy) by (nonlinear_arith)
            requires
                rely == tsl * ty + dy,
                bh == tsl * 16,
        ;
        lemma_fundamental_div_mod_converse_div(rely * 16, bh, ty, 16 * dy);
    }
}

/// The half-open cells tile the board exactly: a point over the board is in
/// precisely the cell the hit-test reports, and in no other; a point off the
/// board is in none.
pub proof fn lemma_cells_partition_board(s: Sizes, p: DrawXY, txy: tile::XY)
    requires
        sizes_wf(s),
        s.tile_side_length > 0,
        txy.wf(),
    ensures
        spec_cell_contains(s, txy, p) <==> spec_tile_xy_from_draw(s, p) == Some(txy),
{
    let tsl = s.tile_side_length as int;
    let bw = s.board_xywh.w as int;
    let bh = s.board_xywh.h as int;
    let tx = txy.x.0 as int;
    let ty = txy.y.0 as int;
    let relx = p.x - s.board_xywh.x;
    let rely = p.y - s.board_xywh.y;
    assert(bw * tx / 16 == tsl * tx) by {
        assert(bw * tx == 16 * (tsl * tx)) by (nonlinear_arith)
            requires
                bw == tsl * 16,
        ;
        lemma_div_multiples_vanish(tsl * tx, 16);
    }
    assert(bh * ty / 16 == tsl * ty) by {
        assert(bh * ty == 16 * (tsl * ty)) by (nonlinear_arith)
            requires
                bh == tsl * 16,
        ;
        lemma_div_multiples_vanish(tsl * ty, 16);
    }
    if spec_cell_contains(s, txy, p) {
        assert(0 <= relx < bw && 0 <= rely < bh) by (nonlinear_arith)
            requires
                bw == tsl * 16,
                bh == tsl * 16,
                0 <= tx <= 15,
                0 <= ty <= 15,
                tsl * tx <= relx < tsl * tx + tsl,
                tsl * ty <= rely < tsl * ty + tsl,
        ;
        assert(relx * 16 / bw == tx) by {
            assert(relx * 16 == tx * bw + 16 * (relx - tsl * tx) && 0 <= 16 * (relx - tsl * tx)
                < bw) by (nonlinear_arith)
                requires
                    bw == tsl * 16,
                    tsl * tx <= relx < tsl * tx + tsl,
            ;
            lemma_fundamental_div_mod_converse_div(relx * 16, bw, tx, 16 * (relx - tsl * tx));
        }
        assert(rely * 16 / bh == ty) by {
            assert(rely * 16 == ty * bh + 16 * (rely - tsl * ty) && 0 <= 16 * (rely - tsl * ty)
                < bh) by (nonlinear_arith)
                requires
                    bh == tsl * 16,
                    tsl * ty <= rely < tsl * ty + tsl,
            ;
            lemma_fundamental_div_mod_converse_div(rely * 16, bh, ty, 16 * (rely - tsl * ty));
        }
    }
    if spec_tile_xy_from_draw(s, p) == Some(txy) {
        assert(0 <= relx < bw && 0 <= rely < bh);
        assert(relx * 16 / bw == tx && rely * 16 / bh == ty) by {
            assert(0 <= relx * 16 && 0 <= rely * 16) by (nonlinear_arith)
                requires
                    0 <= relx,
                    0 <= rely,
            ;
            assert(relx * 16 / bw < 16) by {
                vstd::arithmetic::div_mod::lemma_multiply_divide_lt(relx * 16, bw, 16);
                assert(relx * 16 < bw * 16) by (nonlinear_arith)
                    requires
                        relx < bw,
                ;
            }
            assert(rely * 16 / bh < 16) by {
                vstd::arithmetic::div_mod::lemma_multiply_divide_lt(rely * 16, bh, 16);
                assert(rely * 16 < bh * 16) by (nonlinear_arith)
                    requires
                        rely < bh,
                ;
            }
            broadcast use vstd::arithmetic::div_mod::lemma_div_pos_is_pos;

        }
        assert(tsl * tx <= relx < tsl * tx + tsl) by {
            vstd::arithmetic::div_mod::lemma_fundamental_div_mod(relx * 16, bw);
            assert(tsl * tx <= relx < tsl * tx + tsl) by (nonlinear_arith)
                requires
                    bw == tsl * 16,
                    tsl > 0,
                    relx * 16 == bw * (relx * 16 / bw) + (relx * 16) % bw,
                    0 <= (relx * 16) % bw < bw,
                    relx * 16 / bw == tx,
            ;
        }
        assert(tsl * ty <= rely < tsl * ty + tsl) by {
            vstd::arithmetic::div_mod::lemma_fundamental_div_mod(rely * 16, bh);
            assert(tsl * ty <= rely < tsl * ty + tsl) by (nonlinear_arith)
                requires
                    bh == tsl * 16,
                    tsl > 0,
                    rely * 16 == bh * (rely * 16 / bh) + (rely * 16) % bh,
                    0 <= (rely * 16) % bh < bh,
                    rely * 16 / bh == ty,
            ;
        }
        assert(spec_cell_contains(s, txy, p));
    }
}

/// Adjacent cells abut exactly: the next column's left edge is this
/// column's right edge, and likewise for rows, so the cells leave no gap.
pub proof fn lemma_adjacent_cells_abut(s: Sizes, tx: int, ty: int)
    requires
        sizes_wf(s),
        0 <= tx <= 15,
        0 <= ty <= 15,
    ensures
        spec_tile_draw_x(s, tx + 1) == spec_tile_draw_x(s, tx) + s.tile_side_length,
        spec_tile_draw_y(s, ty + 1) == spec_tile_draw_y(s, ty) + s.tile_side_length,
{
    let tsl = s.tile_side_length as int;
    let bw = s.board_xywh.w as int;
    let bh = s.board_xywh.h as int;
    assert(bw * tx / 16 == tsl * tx && bw * (tx + 1) / 16 == tsl * (tx + 1)) by {
        assert(bw * tx == 16 * (tsl * tx) && bw * (tx + 1) == 16 * (tsl * (tx + 1)))
            by (nonlinear_arith)
            requires
                bw == tsl * 16,
        ;
        lemma_div_multiples_vanish(tsl * tx, 16);
        lemma_div_multiples_vanish(tsl * (tx + 1), 16);
    }
    assert(bh * ty / 16 == tsl * ty && bh * (ty + 1) / 16 == tsl * (ty + 1)) by {
        assert(bh * ty == 16 * (tsl * ty) && bh * (ty + 1) == 16 * (tsl * (ty + 1)))
            by (nonlinear_arith)
            requires
                bh == tsl * 16,
        ;
        lemma_div_multiples_vanish(tsl * ty, 16);
        lemma_div_multiples_vanish(tsl * (ty + 1), 16);
    }
    assert(tsl * (tx + 1) == tsl * tx + tsl) by (nonlinear_arith);
    assert(tsl * (ty + 1) == tsl * ty + tsl) by (nonlinear_arith);
}


/// Which sprite to draw at a point.
#[derive(Clone, Copy, Debug, PartialEq, Eq, Structural)]
pub enum SpriteKind {
    NeutralEye,
    DirEye(crate::input::Dir),
    Arrow(crate::input::Dir, crate::input::ArrowKind),
    SmallPupilEye,
    NarrowLeftEye,
    NarrowCenterEye,
    NarrowRightEye,
    ClosedEye,
    HalfLidEye,
    Unchecked(crate::cell::UiState),
    Checked(crate::cell::UiState),
}

impl Default for SpriteKind {
    fn default() -> (r: Self)
        ensures
            r == SpriteKind::NeutralEye,
    {
        SpriteKind::NeutralEye
    }
}

/// One display command: the renderer owns all actual pixel work.
#[derive(Clone, Debug)]
pub enum Command {
    Sprite(SpriteSpec),
    Text(TextSpec),
}

/// Place a sprite at a draw-space point.
#[derive(Clone, Copy, Debug, PartialEq, Eq, Structural)]
pub struct SpriteSpec {
    pub sprite: SpriteKind,
    pub xy: DrawXY,
}

/// A semantic text style, so the platform layer can pick fonts.
#[derive(Clone, Copy, Debug, PartialEq, Eq, Structural)]
pub enum TextKind {
    UI,
}

/// Draw ASCII text inside a draw-space rectangle.
#[derive(Clone, Debug)]
pub struct TextSpec {
    /// ASCII bytes of the text.
    pub text: Vec<u8>,
    pub xy: DrawXY,
    /// The rectangle the text should lie inside; the renderer picks the
    /// font size.
    pub wh: DrawWH,
    pub kind: TextKind,
}


} // verus!
