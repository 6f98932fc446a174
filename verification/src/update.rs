//! The per-frame update step: decodes the input snapshot, steps the
//! animation and pointer state machines, mutates the board, and repopulates
//! the caller's display command list.

use vstd::prelude::*;
use vstd::arithmetic::div_mod::{
    lemma_small_mod,
    lemma_fundamental_div_mod,
    lemma_fundamental_div_mod_converse_mod,
};
use crate::cell;
use crate::draw::{
    self,
    Command,
    CURSOR_BOUND,
    DRAW_MAX,
    DrawWH,
    DrawXY,
    Sizes,
    SpriteKind,
    SpriteSpec,
    TextKind,
    TextSpec,
    sizes_wf,
    spec_fresh_sizes,
    spec_margin,
    spec_tile_draw_x,
    spec_tile_draw_y,
    spec_top_label_rect,
};
use crate::input::{
    ArrowKind,
    Dir,
    Input,
    InputFlags,
    INPUT_LEFT_MOUSE_CHANGED,
    INPUT_LEFT_MOUSE_DOWN,
    TextInput,
    spec_input_from_flags,
};
use crate::state::{
    ANIMATION_TIMER_LENGTH,
    AnimationTimer,
    ButtonState,
    ClearableStorage,
    ClickArea,
    CursorXY,
    Eye,
    EyeState,
    LABEL_COUNT,
    LABEL_MAX_LEN,
    State,
    TILES_LENGTH,
    Ui,
    UiMode,
    spec_click_area,
    spec_eye_sprite,
    spec_tile_state,
};
use crate::tile;

verus! {

/// Frames the animation holds one phase: the base cadence unit.
pub const HOLD_FRAMES: AnimationTimer = 30;

/// The animation timer after one update call: it wraps to zero at
/// [`ANIMATION_TIMER_LENGTH`].
pub open spec fn spec_timer_step(t: AnimationTimer) -> AnimationTimer {
    if t + 1 >= ANIMATION_TIMER_LENGTH {
        0
    } else {
        (t + 1) as AnimationTimer
    }
}

/// The animation timer after `n` update calls.
pub open spec fn spec_timer_after(n: nat, t: AnimationTimer) -> AnimationTimer
    decreases n,
{
    if n == 0 {
        t
    } else {
        spec_timer_step(spec_timer_after((n - 1) as nat, t))
    }
}

/// The timer after `n` steps is the start value plus `n`, modulo the cycle
/// length.
pub proof fn lemma_timer_after_mod(n: nat, t: AnimationTimer)
    requires
        t < ANIMATION_TIMER_LENGTH,
    ensures
        spec_timer_after(n, t) == (t + n) % (ANIMATION_TIMER_LENGTH as int),
    decreases n,
{
    let len = ANIMATION_TIMER_LENGTH as int;
    if n == 0 {
        lemma_small_mod(t as nat, ANIMATION_TIMER_LENGTH as nat);
    } else {
        lemma_timer_after_mod((n - 1) as nat, t);
        let prev = spec_timer_after((n - 1) as nat, t) as int;
        lemma_fundamental_div_mod(t + n - 1, len);
        let q = (t + n - 1) / len;
        assert(len * q == q * len) by (nonlinear_arith);
        assert(t + n == q * len + (prev + 1));
        if prev + 1 < len {
            lemma_fundamental_div_mod_converse_mod(t + n, len, q, prev + 1);
        } else {
            assert(t + n == (q + 1) * len + 0) by (nonlinear_arith)
                requires
                    t + n == q * len + (prev + 1),
                    prev + 1 == len,
            ;
            lemma_fundamental_div_mod_converse_mod(t + n, len, q + 1, 0);
        }
    }
}

/// Timer wrap: after exactly [`ANIMATION_TIMER_LENGTH`] update calls the
/// timer is back where it started, so every fixed animation cadence is back
/// in the phase it had at the first of those calls.
pub proof fn lemma_timer_wraps(t: AnimationTimer)
    requires
        t < ANIMATION_TIMER_LENGTH,
    ensures
        spec_timer_after(ANIMATION_TIMER_LENGTH as nat, t) == t,
{
    lemma_timer_after_mod(ANIMATION_TIMER_LENGTH as nat, t);
    let len = ANIMATION_TIMER_LENGTH as int;
    assert(t + len == 1 * len + t) by (nonlinear_arith);
    lemma_fundamental_div_mod_converse_mod(t + len, len, 1, t as int);
}

/// Phase match across the wrap: the timer-gated eye transition taken after
/// a whole cycle of no-input updates is the one taken at the cycle's start.
pub proof fn lemma_eye_phase_matches_after_wrap(es: EyeState, t: AnimationTimer)
    requires
        t < ANIMATION_TIMER_LENGTH,
    ensures
        spec_eye_timer_step(es, spec_timer_after(ANIMATION_TIMER_LENGTH as nat, t))
            == spec_eye_timer_step(es, t),
{
    lemma_timer_wraps(t);
}

/// The timer-gated eye transitions, taken only on a frame with no
/// directional or interact input: each state moves on when the timer phase
/// for its cadence comes up, and otherwise stays.
pub open spec fn spec_eye_timer_step(es: EyeState, timer: AnimationTimer) -> EyeState {
    match es {
        EyeState::Idle => if timer as int % (3 * HOLD_FRAMES as int) == 0 {
            EyeState::NarrowAnimCenter
        } else {
            es
        },
        EyeState::Moved(_) => if timer as int % (HOLD_FRAMES as int) == 0 {
            EyeState::Idle
        } else {
            es
        },
        EyeState::SmallPupil => if timer as int % (3 * HOLD_FRAMES as int) == 0 {
            EyeState::Closed
        } else {
            es
        },
        EyeState::Closed => if timer as int % (HOLD_FRAMES as int) == 0 {
            EyeState::HalfLid
        } else {
            es
        },
        EyeState::HalfLid => if timer as int % (5 * HOLD_FRAMES as int) == 0 {
            EyeState::Idle
        } else {
            es
        },
        EyeState::NarrowAnimCenter => {
            let modulus = timer as int % (4 * HOLD_FRAMES as int);
            if modulus == 0 {
                EyeState::NarrowAnimRight
            } else if modulus == 2 * HOLD_FRAMES as int {
                EyeState::NarrowAnimLeft
            } else {
                es
            }
        },
        EyeState::NarrowAnimLeft => if timer as int % (HOLD_FRAMES as int) == 0 {
            EyeState::NarrowAnimCenter
        } else {
            es
        },
        EyeState::NarrowAnimRight => if timer as int % (HOLD_FRAMES as int) == 0 {
            EyeState::NarrowAnimCenter
        } else {
            es
        },
    }
}

/// The whole eye step for one frame while checking: directional input
/// overrides everything and moves the eye, interact input shrinks the
/// pupil, and only a frame with neither consults the timer.
pub open spec fn spec_eye_step(eye: Eye, input: Input, timer: AnimationTimer) -> Eye {
    match input {
        Input::NoChange => Eye { state: spec_eye_timer_step(eye.state, timer), ..eye },
        Input::Dir(d) => Eye { xy: tile::spec_move_xy(eye.xy, d), state: EyeState::Moved(d) },
        Input::Interact => Eye { state: EyeState::SmallPupil, ..eye },
    }
}

/// Steps the eye for one Checking-mode frame.
fn eye_step(eye: &mut Eye, input: Input, timer: AnimationTimer)
    requires
        old(eye).wf(),
    ensures
        *final(eye) == spec_eye_step(*old(eye), input, timer),
        final(eye).wf(),
{
    match input {
        Input::NoChange => {
            match eye.state {
                EyeState::Idle => {
                    if timer % (HOLD_FRAMES * 3) == 0 {
                        eye.state = EyeState::NarrowAnimCenter;
                    }
                },
                EyeState::Moved(_) => {
                    if timer % HOLD_FRAMES == 0 {
                        eye.state = EyeState::Idle;
                    }
                },
                EyeState::SmallPupil => {
                    if timer % (HOLD_FRAMES * 3) == 0 {
                        eye.state = EyeState::Closed;
                    }
                },
                EyeState::Closed => {
                    if timer % HOLD_FRAMES == 0 {
                        eye.state = EyeState::HalfLid;
                    }
                },
                EyeState::HalfLid => {
                    if timer % (HOLD_FRAMES * 5) == 0 {
                        eye.state = EyeState::Idle;
                    }
                },
                EyeState::NarrowAnimCenter => {
                    let modulus = timer % (HOLD_FRAMES * 4);
                    if modulus == 0 {
                        eye.state = EyeState::NarrowAnimRight;
                    } else if modulus == HOLD_FRAMES * 2 {
                        eye.state = EyeState::NarrowAnimLeft;
                    }
                },
                EyeState::NarrowAnimLeft | EyeState::NarrowAnimRight => {
                    if timer % HOLD_FRAMES == 0 {
                        eye.state = EyeState::NarrowAnimCenter;
                    }
                },
            }
        },
        Input::Dir(Dir::Up) => {
            eye.state = EyeState::Moved(Dir::Up);
            eye.xy.move_up();
        },
        Input::Dir(Dir::UpRight) => {
            eye.state = EyeState::Moved(Dir::UpRight);
            eye.xy.move_up();
            eye.xy.move_right();
        },
        Input::Dir(Dir::Right) => {
            eye.state = EyeState::Moved(Dir::Right);
            eye.xy.move_right();
        },
        Input::Dir(Dir::DownRight) => {
            eye.state = EyeState::Moved(Dir::DownRight);
            eye.xy.move_down();
            eye.xy.move_right();
        },
        Input::Dir(Dir::Down) => {
            eye.state = EyeState::Moved(Dir::Down);
            eye.xy.move_down();
        },
        Input::Dir(Dir::DownLeft) => {
            eye.state = EyeState::Moved(Dir::DownLeft);
            eye.xy.move_down();
            eye.xy.move_left();
        },
        Input::Dir(Dir::Left) => {
            eye.state = EyeState::Moved(Dir::Left);
            eye.xy.x = eye.xy.x.saturating_sub_one();
        },
        Input::Dir(Dir::UpLeft) => {
            eye.state = EyeState::Moved(Dir::UpLeft);
            eye.xy.move_up();
            eye.xy.move_left();
        },
        Input::Interact => {
            eye.state = EyeState::SmallPupil;
        },
    }
}

/// Whether the left mouse button is down this frame.
pub open spec fn spec_mouse_down(flags: InputFlags) -> bool {
    flags & INPUT_LEFT_MOUSE_DOWN != 0
}

/// Whether the button went down this frame.
pub open spec fn spec_mouse_pressed(flags: InputFlags) -> bool {
    flags & INPUT_LEFT_MOUSE_CHANGED != 0 && spec_mouse_down(flags)
}

/// Whether the button came up this frame: the commit opportunity.
pub open spec fn spec_mouse_released(flags: InputFlags) -> bool {
    flags & INPUT_LEFT_MOUSE_CHANGED != 0 && !spec_mouse_down(flags)
}

/// The UI after the frame's input is absorbed, before any commit: the layout
/// refreshed only if the window size changed, the pointer and button
/// sampled, and the press-capture latch set to whatever the pointer was over
/// if the button went down this frame.
pub open spec fn spec_ui_pre(ui: Ui, flags: InputFlags, cursor: CursorXY, wh: DrawWH) -> Ui {
    let sizes = if wh != ui.sizes.draw_wh {
        spec_fresh_sizes(wh)
    } else {
        ui.sizes
    };
    let button = if spec_mouse_down(flags) {
        ButtonState::Down
    } else {
        ButtonState::Up
    };
    let ui1 = Ui { sizes, cursor_xy: cursor, left_mouse_button: button, ..ui };
    if spec_mouse_pressed(flags) {
        Ui { last_pressed: spec_click_area(ui1), ..ui1 }
    } else {
        ui1
    }
}

/// The area whose bound action fires on a release frame: the latched area,
/// exactly when the pointer is released over that same area; releasing
/// elsewhere, or with nothing latched, fires nothing.
pub open spec fn spec_commit_area(ui: Ui) -> Option<ClickArea> {
    if spec_click_area(ui) is Some && ui.last_pressed == spec_click_area(ui) {
        ui.last_pressed
    } else {
        None
    }
}

/// The other mode.
pub open spec fn spec_mode_toggled(mode: UiMode) -> UiMode {
    match mode {
        UiMode::Checking => UiMode::EditLabels,
        UiMode::EditLabels => UiMode::Checking,
    }
}

/// The UI after the whole frame: absorbing input, then, on a release frame,
/// clearing the latch and, exactly when the release commits on the label
/// strip, toggling the mode.
pub open spec fn spec_update_ui(s: State, flags: InputFlags, cursor: CursorXY, wh: DrawWH) -> Ui {
    let ui1 = spec_ui_pre(s.ui, flags, cursor, wh);
    if spec_mouse_released(flags) {
        let ui2 = Ui { last_pressed: None, ..ui1 };
        if spec_commit_area(ui1) == Some(ClickArea::Labels) {
            Ui { mode: spec_mode_toggled(s.ui.mode), ..ui2 }
        } else {
            ui2
        }
    } else {
        ui1
    }
}

/// The eye after the whole frame: stepped by input and timer while checking
/// (and forced back to Idle when this frame's commit enters label editing),
/// untouched while editing labels.
pub open spec fn spec_update_eye(s: State, flags: InputFlags, cursor: CursorXY, wh: DrawWH) -> Eye {
    match s.ui.mode {
        UiMode::Checking => {
            let stepped = spec_eye_step(s.board.eye, spec_input_from_flags(flags), s.animation_timer);
            let ui1 = spec_ui_pre(s.ui, flags, cursor, wh);
            if spec_mouse_released(flags) && spec_commit_area(ui1) == Some(ClickArea::Labels) {
                Eye { state: EyeState::Idle, ..stepped }
            } else {
                stepped
            }
        },
        UiMode::EditLabels => s.board.eye,
    }
}

/// The opposite checked state.
pub open spec fn spec_toggle_status(st: cell::Status) -> cell::Status {
    match st {
        cell::Status::Unchecked => cell::Status::Checked,
        cell::Status::Checked => cell::Status::Unchecked,
    }
}

/// The tile states after the whole frame: one cell toggled exactly when a
/// release in Checking mode commits on that cell.
pub open spec fn spec_update_tiles(s: State, flags: InputFlags, cursor: CursorXY, wh: DrawWH) -> Seq<
    cell::Status,
> {
    let tiles = s.board.tiles.tiles@;
    if s.ui.mode == UiMode::Checking && spec_mouse_released(flags) {
        match spec_commit_area(spec_ui_pre(s.ui, flags, cursor, wh)) {
            Some(ClickArea::TileXY(txy)) => {
                let i = tile::spec_xy_to_i(txy);
                tiles.update(i, spec_toggle_status(tiles[i]))
            },
            _ => tiles,
        }
    } else {
        tiles
    }
}

/// One typed byte applied to a label: 8 and 127 pop the last byte,
/// printable ASCII is appended while the label is under its bound, and
/// anything else is dropped.
pub open spec fn spec_apply_byte(label: Seq<u8>, b: u8) -> Seq<u8> {
    if b == 8 || b == 127 {
        if label.len() > 0 {
            label.drop_last()
        } else {
            label
        }
    } else if 32 <= b <= 126 {
        if label.len() < LABEL_MAX_LEN {
            label.push(b)
        } else {
            label
        }
    } else {
        label
    }
}

/// The frame's typed bytes applied to a label in order, stopping at the
/// first zero byte.
pub open spec fn spec_apply_text(label: Seq<u8>, text: Seq<u8>, i: int) -> Seq<u8>
    decreases text.len() - i,
{
    if i < 0 || i >= text.len() || text[i] == 0 {
        label
    } else {
        spec_apply_text(spec_apply_byte(label, text[i]), text, i + 1)
    }
}

/// Typing never grows a label past its bound.
pub proof fn lemma_apply_text_len(label: Seq<u8>, text: Seq<u8>, i: int)
    requires
        label.len() <= LABEL_MAX_LEN,
    ensures
        spec_apply_text(label, text, i).len() <= LABEL_MAX_LEN,
    decreases text.len() - i,
{
    if !(i < 0 || i >= text.len() || text[i] == 0) {
        lemma_apply_text_len(spec_apply_byte(label, text[i]), text, i + 1);
    }
}

/// Height of one label text-box row in the editor.
pub open spec fn spec_small_section_h(s: Sizes) -> int {
    s.draw_wh.h as int / 8 - spec_margin(s)
}

/// Whether the pointer is inside label row `i`'s text box.
pub open spec fn spec_label_row_hit(s: Sizes, c: DrawXY, i: int) -> bool {
    let m = spec_margin(s);
    let ssh = spec_small_section_h(s);
    &&& s.play_xywh.x + m <= c.x < s.play_xywh.x + m + s.play_xywh.w
    &&& m + i * ssh <= c.y < m + (i + 1) * ssh
}

/// The first label row at or past `i` whose text box holds the pointer.
pub open spec fn spec_hovered_label_row(s: Sizes, c: DrawXY, i: int) -> Option<int>
    decreases LABEL_COUNT - i,
{
    if i < 0 || i >= LABEL_COUNT {
        None
    } else if spec_label_row_hit(s, c, i) {
        Some(i)
    } else {
        spec_hovered_label_row(s, c, i + 1)
    }
}

/// The labels after the whole frame: while editing, the frame's typed bytes
/// land on the one label whose text box holds the pointer; otherwise the
/// labels are untouched.
pub open spec fn spec_update_labels(
    s: State,
    flags: InputFlags,
    text: Seq<u8>,
    cursor: CursorXY,
    wh: DrawWH,
) -> Seq<Seq<u8>> {
    let labels = s.board.labels_view();
    if s.ui.mode == UiMode::EditLabels {
        let ui1 = spec_ui_pre(s.ui, flags, cursor, wh);
        match spec_hovered_label_row(ui1.sizes, ui1.cursor_xy, 0) {
            Some(row) => labels.update(row, spec_apply_text(labels[row], text, 0)),
            None => labels,
        }
    } else {
        labels
    }
}

/// Euclidean division by eight, rounding towards minus infinity.
fn floor_div_8(a: i64) -> (r: i64)
    requires
        -CURSOR_BOUND <= a <= CURSOR_BOUND,
    ensures
        r == a as int / 8,
{
    if a >= 0 {
        a / 8
    } else {
        let b = -a;
        proof {
            lemma_fundamental_div_mod(b + 7, 8);
            let q2 = (b + 7) / 8;
            let r2 = (b + 7) % 8;
            vstd::arithmetic::div_mod::lemma_fundamental_div_mod_converse_div(
                a as int,
                8,
                -q2,
                7 - r2,
            );
        }
        -((b + 7) / 8)
    }
}

/// One editor row's height: an eighth of the window height less a margin.
fn small_section_h(sizes: &Sizes) -> (r: i64)
    requires
        sizes_wf(*sizes),
    ensures
        r == spec_small_section_h(*sizes),
{
    floor_div_8(sizes.draw_wh.h) - draw::margin(sizes)
}

/// Finds the label row whose text box holds the pointer, testing the rows
/// top down.
fn find_hovered_label_row(sizes: &Sizes, cursor: CursorXY) -> (r: Option<usize>)
    requires
        sizes_wf(*sizes),
        -CURSOR_BOUND <= cursor.x <= CURSOR_BOUND,
        -CURSOR_BOUND <= cursor.y <= CURSOR_BOUND,
    ensures
        spec_hovered_label_row(*sizes, cursor, 0) == (match r {
            Some(u) => Some(u as int),
            None => None::<int>,
        }),
        r matches Some(u) ==> u < LABEL_COUNT,
{
    let m = draw::margin(sizes);
    let ssh = small_section_h(sizes);
    let min_x = sizes.play_xywh.x + m;
    let max_x = sizes.play_xywh.x + m + sizes.play_xywh.w;
    let in_x = cursor.x >= min_x && cursor.x < max_x;
    let mut y: i64 = m;
    let mut i: usize = 0;
    while i < LABEL_COUNT
        invariant
            sizes_wf(*sizes),
            0 <= i <= LABEL_COUNT,
            m == spec_margin(*sizes),
            ssh == spec_small_section_h(*sizes),
            -CURSOR_BOUND <= ssh <= CURSOR_BOUND,
            y == m + i * ssh,
            -17 * CURSOR_BOUND <= y <= 17 * CURSOR_BOUND,
            min_x == sizes.play_xywh.x + m,
            max_x == sizes.play_xywh.x + m + sizes.play_xywh.w,
            in_x == (min_x <= cursor.x < max_x),
            spec_hovered_label_row(*sizes, cursor, 0) == spec_hovered_label_row(
                *sizes,
                cursor,
                i as int,
            ),
        decreases LABEL_COUNT - i,
    {
        proof {
            assert((i + 1) * ssh == i * ssh + ssh) by (nonlinear_arith);
            assert(-16 * CURSOR_BOUND <= (i + 1) * (ssh as int) <= 16 * CURSOR_BOUND)
                by (nonlinear_arith)
                requires
                    0 <= i + 1 <= 16,
                    -CURSOR_BOUND <= ssh <= CURSOR_BOUND,
            ;
        }
        if in_x && cursor.y >= y && cursor.y < y + ssh {
            return Some(i);
        }
        y = y + ssh;
        i = i + 1;
    }
    None
}

/// Applies the frame's typed bytes to one label, stopping at the first
/// zero byte.
fn apply_text_to_label(label: &mut Vec<u8>, text: &TextInput)
    requires
        old(label)@.len() <= LABEL_MAX_LEN,
    ensures
        final(label)@ == spec_apply_text(old(label)@, text@, 0),
        final(label)@.len() <= LABEL_MAX_LEN,
{
    let mut i: usize = 0;
    while i < 16
        invariant_except_break
            i <= 16,
            text@.len() == 16,
            label@.len() <= LABEL_MAX_LEN,
            spec_apply_text(old(label)@, text@, 0) == spec_apply_text(label@, text@, i as int),
        ensures
            label@ == spec_apply_text(old(label)@, text@, 0),
        decreases 16 - i,
    {
        let b = text[i];
        if b == 0 {
            proof {
                assert(spec_apply_text(label@, text@, i as int) == label@);
            }
            break;
        }
        if b == 8 || b == 127 {
            if label.len() > 0 {
                label.pop();
            }
        } else if 32 <= b && b <= 126 {
            if label.len() < LABEL_MAX_LEN {
                label.push(b);
            }
        }
        i = i + 1;
        proof {
            if i == 16 {
                assert(spec_apply_text(label@, text@, i as int) == label@);
            }
        }
    }
    proof {
        lemma_apply_text_len(old(label)@, text@, 0);
    }
}


/// The sprite command for tile index `i`: its checked-state sprite in its
/// current pointer state, at its cell's corner.
pub open spec fn spec_tile_command(ui: Ui, tiles: Seq<cell::Status>, i: int) -> Command {
    let txy = tile::spec_i_to_xy(i);
    Command::Sprite(
        SpriteSpec {
            sprite: cell::spec_sprite_fn(tiles[i], spec_tile_state(ui, txy)),
            xy: DrawXY {
                x: spec_tile_draw_x(ui.sizes, txy.x.0 as int) as i64,
                y: spec_tile_draw_y(ui.sizes, txy.y.0 as int) as i64,
            },
        },
    )
}

/// The eye sprite command, at the eye's tile.
pub open spec fn spec_eye_command(ui: Ui, eye: Eye) -> Command {
    Command::Sprite(
        SpriteSpec {
            sprite: spec_eye_sprite(eye.state),
            xy: DrawXY {
                x: spec_tile_draw_x(ui.sizes, eye.xy.x.0 as int) as i64,
                y: spec_tile_draw_y(ui.sizes, eye.xy.y.0 as int) as i64,
            },
        },
    )
}

/// The arrow sprite command at the label strip's corner.
pub open spec fn spec_arrow_command(ui: Ui) -> Command {
    Command::Sprite(
        SpriteSpec {
            sprite: SpriteKind::Arrow(Dir::Up, ArrowKind::Red),
            xy: DrawXY {
                x: spec_top_label_rect(ui.sizes).min_x,
                y: spec_top_label_rect(ui.sizes).min_y,
            },
        },
    )
}

/// How a label is shown in its strip slot: whole up to eight bytes, else
/// its first five bytes and an ellipsis.
pub open spec fn spec_display_bytes(label: Seq<u8>) -> Seq<u8> {
    if label.len() <= 8 {
        label
    } else {
        label.take(5) + seq![46u8, 46u8, 46u8]
    }
}

/// The text command for label `i`'s strip slot.
pub open spec fn spec_label_command_ok(s: Sizes, labels: Seq<Seq<u8>>, i: int, c: Command) -> bool {
    match c {
        Command::Text(ts) => {
            &&& ts.text@ == spec_display_bytes(labels[i])
            &&& ts.xy == DrawXY {
                x: (spec_top_label_rect(s).min_x + i * s.tile_side_length) as i64,
                y: spec_top_label_rect(s).min_y,
            }
            &&& ts.wh == DrawWH { w: s.tile_side_length, h: s.tile_side_length }
            &&& ts.kind == TextKind::UI
        },
        _ => false,
    }
}

/// Decimal digits of a row number below twenty.
pub open spec fn spec_decimal_bytes(n: int) -> Seq<u8> {
    if n < 10 {
        seq![(48 + n) as u8]
    } else {
        seq![49u8, (48 + (n - 10)) as u8]
    }
}

/// An editor row's text: the row number, a separating colon and space, and
/// the whole label.
pub open spec fn spec_row_text(i: int, label: Seq<u8>) -> Seq<u8> {
    spec_decimal_bytes(i) + seq![58u8, 32u8] + label
}

/// The text command for label `i`'s editor row.
pub open spec fn spec_edit_row_command_ok(
    s: Sizes,
    labels: Seq<Seq<u8>>,
    i: int,
    c: Command,
) -> bool {
    match c {
        Command::Text(ts) => {
            &&& ts.text@ == spec_row_text(i, labels[i])
            &&& ts.xy == DrawXY {
                x: (s.play_xywh.x + spec_margin(s)) as i64,
                y: (spec_margin(s) + i * spec_small_section_h(s)) as i64,
            }
            &&& ts.wh == DrawWH { w: s.play_xywh.w, h: spec_small_section_h(s) as i64 }
            &&& ts.kind == TextKind::UI
        },
        _ => false,
    }
}

/// Tile sprite commands are emitted only in Checking mode.
pub open spec fn spec_tile_commands_len(mode: UiMode) -> int {
    if mode == UiMode::Checking {
        TILES_LENGTH as int
    } else {
        0
    }
}

/// Commands emitted for one frame: the tile sprites while checking, the eye,
/// the arrow, the sixteen label slots, and, while editing, the sixteen
/// editor rows.
pub open spec fn spec_commands_len(mode: UiMode) -> int {
    spec_tile_commands_len(mode) + 2 + LABEL_COUNT + if mode == UiMode::EditLabels {
        LABEL_COUNT as int
    } else {
        0
    }
}

/// The whole display command list for a frame, pinned element by element
/// from the state the frame ends in.
pub open spec fn spec_commands_ok(s: State, cs: Seq<Command>) -> bool {
    let nt = spec_tile_commands_len(s.ui.mode);
    &&& cs.len() == spec_commands_len(s.ui.mode)
    &&& forall|i: int|
        0 <= i < nt ==> #[trigger] cs[i] == spec_tile_command(s.ui, s.board.tiles.tiles@, i)
    &&& cs[nt] == spec_eye_command(s.ui, s.board.eye)
    &&& cs[nt + 1] == spec_arrow_command(s.ui)
    &&& forall|i: int|
        nt + 2 <= i < nt + 2 + LABEL_COUNT ==> spec_label_command_ok(
            s.ui.sizes,
            s.board.labels_view(),
            i - (nt + 2),
            #[trigger] cs[i],
        )
    &&& s.ui.mode == UiMode::EditLabels ==> forall|i: int|
        nt + 2 + LABEL_COUNT <= i < nt + 2 + 2 * LABEL_COUNT ==> spec_edit_row_command_ok(
            s.ui.sizes,
            s.board.labels_view(),
            i - (nt + 2 + LABEL_COUNT),
            #[trigger] cs[i],
        )
}

/// The bytes a label's strip slot shows.
fn display_bytes(label: &Vec<u8>) -> (r: Vec<u8>)
    ensures
        r@ == spec_display_bytes(label@),
{
    let len = label.len();
    let mut out: Vec<u8> = Vec::new();
    if len <= 8 {
        let mut i: usize = 0;
        while i < len
            invariant
                i <= len,
                len == label@.len(),
                out@.len() == i,
                forall|j: int| 0 <= j < i ==> out@[j] == label@[j],
            decreases len - i,
        {
            out.push(label[i]);
            i = i + 1;
        }
        proof {
            assert(out@ =~= label@);
        }
    } else {
        let mut i: usize = 0;
        while i < 5
            invariant
                i <= 5,
                label@.len() > 8,
                out@.len() == i,
                forall|j: int| 0 <= j < i ==> out@[j] == label@[j],
            decreases 5 - i,
        {
            out.push(label[i]);
            i = i + 1;
        }
        out.push(46);
        out.push(46);
        out.push(46);
        proof {
            assert(out@ =~= label@.take(5) + seq![46u8, 46u8, 46u8]);
        }
    }
    out
}

/// The bytes of one editor row: the row number, a colon and a space, then
/// the label.
fn row_text(i: usize, label: &Vec<u8>) -> (r: Vec<u8>)
    requires
        i < LABEL_COUNT,
    ensures
        r@ == spec_row_text(i as int, label@),
{
    let mut out: Vec<u8> = Vec::new();
    if i < 10 {
        out.push(48 + (i as u8));
    } else {
        out.push(49);
        out.push(48 + ((i - 10) as u8));
    }
    out.push(58);
    out.push(32);
    let ghost prefix = out@;
    proof {
        assert(prefix =~= spec_decimal_bytes(i as int) + seq![58u8, 32u8]);
    }
    let mut j: usize = 0;
    let len = label.len();
    while j < len
        invariant
            j <= len,
            len == label@.len(),
            out@.len() == prefix.len() + j,
            forall|k: int| 0 <= k < prefix.len() ==> out@[k] == prefix[k],
            forall|k: int| 0 <= k < j ==> out@[prefix.len() + k] == label@[k],
        decreases len - j,
    {
        out.push(label[j]);
        j = j + 1;
    }
    proof {
        assert(out@ =~= prefix + label@);
    }
    out
}

/// Clears the command sink and pushes one command per visible element of
/// the given state.
fn emit_commands<S: ClearableStorage<Command>>(state: &State, commands: &mut S)
    requires
        state.wf(),
    ensures
        spec_commands_ok(*state, final(commands).contents()),
{
    commands.clear();
    let ghost nt = spec_tile_commands_len(state.ui.mode);
    let ghost tiles_seq = state.board.tiles.tiles@;
    let checking = match state.ui.mode {
        UiMode::Checking => true,
        UiMode::EditLabels => false,
    };
    if checking {
        let mut i: usize = 0;
        while i < TILES_LENGTH
            invariant
                state.wf(),
                state.ui.mode == UiMode::Checking,
                tiles_seq == state.board.tiles.tiles@,
                i <= TILES_LENGTH,
                commands.contents().len() == i,
                forall|j: int|
                    0 <= j < i ==> #[trigger] commands.contents()[j] == spec_tile_command(
                        state.ui,
                        tiles_seq,
                        j,
                    ),
            decreases TILES_LENGTH - i,
        {
            let txy = tile::i_to_xy(i);
            let status = state.board.tiles.tiles[i];
            let ui_state = state.ui.tile_state(txy);
            let sprite = status.sprite_fn(ui_state);
            let xy = draw::draw_xy_from_tile(&state.ui.sizes, txy);
            commands.push(Command::Sprite(SpriteSpec { sprite, xy }));
            i = i + 1;
        }
    }
    let eye_xy = draw::draw_xy_from_tile(&state.ui.sizes, state.board.eye.xy);
    commands.push(
        Command::Sprite(SpriteSpec { sprite: state.board.eye.state.sprite(), xy: eye_xy }),
    );
    let top_rect = draw::top_label_rect(&state.ui.sizes);
    commands.push(
        Command::Sprite(
            SpriteSpec {
                sprite: SpriteKind::Arrow(Dir::default(), ArrowKind::default()),
                xy: DrawXY { x: top_rect.min_x, y: top_rect.min_y },
            },
        ),
    );
    proof {
        assert(commands.contents().len() == nt + 2);
        assert(commands.contents()[nt] == spec_eye_command(state.ui, state.board.eye));
        assert(commands.contents()[nt + 1] == spec_arrow_command(state.ui));
    }
    let label_wh = draw::label_wh(&state.ui.sizes);
    let mut x = top_rect.min_x;
    let y = top_rect.min_y;
    let mut i: usize = 0;
    while i < LABEL_COUNT
        invariant
            state.wf(),
            nt == spec_tile_commands_len(state.ui.mode),
            tiles_seq == state.board.tiles.tiles@,
            i <= LABEL_COUNT,
            label_wh == (DrawWH {
                w: state.ui.sizes.tile_side_length,
                h: state.ui.sizes.tile_side_length,
            }),
            top_rect == spec_top_label_rect(state.ui.sizes),
            y == top_rect.min_y,
            x == top_rect.min_x + i * state.ui.sizes.tile_side_length,
            commands.contents().len() == nt + 2 + i,
            forall|j: int|
                0 <= j < nt ==> #[trigger] commands.contents()[j] == spec_tile_command(
                    state.ui,
                    tiles_seq,
                    j,
                ),
            commands.contents()[nt] == spec_eye_command(state.ui, state.board.eye),
            commands.contents()[nt + 1] == spec_arrow_command(state.ui),
            forall|j: int|
                nt + 2 <= j < nt + 2 + i ==> spec_label_command_ok(
                    state.ui.sizes,
                    state.board.labels_view(),
                    j - (nt + 2),
                    #[trigger] commands.contents()[j],
                ),
        decreases LABEL_COUNT - i,
    {
        proof {
            assert((i + 1) * (state.ui.sizes.tile_side_length as int) == i * (
            state.ui.sizes.tile_side_length as int) + state.ui.sizes.tile_side_length)
                by (nonlinear_arith);
            assert(0 <= i * (state.ui.sizes.tile_side_length as int) <= 15 * DRAW_MAX)
                by (nonlinear_arith)
                requires
                    0 <= i <= 15,
                    0 <= state.ui.sizes.tile_side_length <= DRAW_MAX,
            ;
        }
        let text = display_bytes(&state.board.labels[i]);
        commands.push(
            Command::Text(TextSpec { text, xy: DrawXY { x, y }, wh: label_wh, kind: TextKind::UI }),
        );
        x = x + label_wh.w;
        i = i + 1;
    }
    let editing = match state.ui.mode {
        UiMode::Checking => false,
        UiMode::EditLabels => true,
    };
    if editing {
        let m = draw::margin(&state.ui.sizes);
        let ssh = small_section_h(&state.ui.sizes);
        let left_x = state.ui.sizes.play_xywh.x + m;
        let mut row_y = m;
        let mut i: usize = 0;
        while i < LABEL_COUNT
            invariant
                state.wf(),
                state.ui.mode == UiMode::EditLabels,
                nt == 0,
                tiles_seq == state.board.tiles.tiles@,
                i <= LABEL_COUNT,
                m == spec_margin(state.ui.sizes),
                ssh == spec_small_section_h(state.ui.sizes),
                -CURSOR_BOUND <= ssh <= CURSOR_BOUND,
                left_x == state.ui.sizes.play_xywh.x + m,
                row_y == m + i * ssh,
                -17 * CURSOR_BOUND <= row_y <= 17 * CURSOR_BOUND,
                commands.contents().len() == nt + 2 + LABEL_COUNT + i,
                forall|j: int|
                    0 <= j < nt ==> #[trigger] commands.contents()[j] == spec_tile_command(
                        state.ui,
                        tiles_seq,
                        j,
                    ),
                commands.contents()[nt] == spec_eye_command(state.ui, state.board.eye),
                commands.contents()[nt + 1] == spec_arrow_command(state.ui),
                forall|j: int|
                    nt + 2 <= j < nt + 2 + LABEL_COUNT ==> spec_label_command_ok(
                        state.ui.sizes,
                        state.board.labels_view(),
                        j - (nt + 2),
                        #[trigger] commands.contents()[j],
                    ),
                forall|j: int|
                    nt + 2 + LABEL_COUNT <= j < nt + 2 + LABEL_COUNT + i
                        ==> spec_edit_row_command_ok(
                        state.ui.sizes,
                        state.board.labels_view(),
                        j - (nt + 2 + LABEL_COUNT),
                        #[trigger] commands.contents()[j],
                    ),
            decreases LABEL_COUNT - i,
        {
            proof {
                assert((i + 1) * ssh == i * ssh + ssh) by (nonlinear_arith);
                assert(-16 * CURSOR_BOUND <= (i + 1) * (ssh as int) <= 16 * CURSOR_BOUND)
                    by (nonlinear_arith)
                    requires
                        0 <= i + 1 <= 16,
                        -CURSOR_BOUND <= ssh <= CURSOR_BOUND,
                ;
            }
            let text = row_text(i, &state.board.labels[i]);
            commands.push(
                Command::Text(
                    TextSpec {
                        text,
                        xy: DrawXY { x: left_x, y: row_y },
                        wh: DrawWH { w: state.ui.sizes.play_xywh.w, h: ssh },
                        kind: TextKind::UI,
                    },
                ),
            );
            row_y = row_y + ssh;
            i = i + 1;
        }
    }
}


/// Commit discipline: the bound action of an area fires on a release frame
/// exactly when the press-captured area and the area under the released
/// pointer are this same, present area.
pub proof fn lemma_commit_fires_iff(ui: Ui, area: ClickArea)
    ensures
        spec_commit_area(ui) == Some(area) <==> (ui.last_pressed == Some(area)
            && spec_click_area(ui) == Some(area)),
{
}

/// A release over a different area than the press, or over nothing, or with
/// nothing captured, fires no action: the board and the mode are exactly as
/// before, only the latch is cleared.
pub proof fn lemma_release_without_match_changes_nothing(
    s: State,
    flags: InputFlags,
    cursor: CursorXY,
    wh: DrawWH,
)
    requires
        spec_mouse_released(flags),
        spec_commit_area(spec_ui_pre(s.ui, flags, cursor, wh)) is None,
    ensures
        spec_update_tiles(s, flags, cursor, wh) == s.board.tiles.tiles@,
        spec_update_ui(s, flags, cursor, wh).mode == s.ui.mode,
        spec_update_ui(s, flags, cursor, wh).last_pressed is None,
{
}

/// A release that commits on a tile cell while checking toggles exactly
/// that cell and no other, and the mode stays Checking.
pub proof fn lemma_commit_toggles_tile(
    s: State,
    flags: InputFlags,
    cursor: CursorXY,
    wh: DrawWH,
    txy: tile::XY,
)
    requires
        s.ui.mode == UiMode::Checking,
        s.board.tiles.wf(),
        txy.wf(),
        spec_mouse_released(flags),
        spec_commit_area(spec_ui_pre(s.ui, flags, cursor, wh)) == Some(ClickArea::TileXY(txy)),
    ensures
        spec_update_tiles(s, flags, cursor, wh)[tile::spec_xy_to_i(txy)] == spec_toggle_status(
            s.board.tiles.tiles@[tile::spec_xy_to_i(txy)],
        ),
        forall|j: int|
            0 <= j < TILES_LENGTH && j != tile::spec_xy_to_i(txy)
                ==> spec_update_tiles(s, flags, cursor, wh)[j] == s.board.tiles.tiles@[j],
        spec_update_ui(s, flags, cursor, wh).mode == UiMode::Checking,
{
}

/// No release this frame leaves the board, the mode, and the latch capture
/// of a press untouched by the pointer machinery.
pub proof fn lemma_no_release_no_commit(s: State, flags: InputFlags, cursor: CursorXY, wh: DrawWH)
    requires
        !spec_mouse_released(flags),
    ensures
        spec_update_tiles(s, flags, cursor, wh) == s.board.tiles.tiles@,
        spec_update_ui(s, flags, cursor, wh).mode == s.ui.mode,
{
}

/// The single per-frame entry point: refreshes the layout if the window
/// size changed, samples the pointer, latches a press, decodes the input
/// snapshot, dispatches on the mode (stepping the eye and committing clicks
/// while checking; committing the label toggle and applying typed bytes
/// while editing), repopulates the caller's command sink from the state the
/// frame ends in, and advances the wrapping animation timer.
pub fn update<S: ClearableStorage<Command>>(
    state: &mut State,
    commands: &mut S,
    input_flags: InputFlags,
    text_input: TextInput,
    cursor_xy: CursorXY,
    draw_wh: DrawWH,
)
    requires
        old(state).wf(),
        -DRAW_MAX <= draw_wh.w <= DRAW_MAX,
        -DRAW_MAX <= draw_wh.h <= DRAW_MAX,
        -CURSOR_BOUND <= cursor_xy.x <= CURSOR_BOUND,
        -CURSOR_BOUND <= cursor_xy.y <= CURSOR_BOUND,
    ensures
        final(state).wf(),
        final(state).ui == spec_update_ui(*old(state), input_flags, cursor_xy, draw_wh),
        final(state).board.eye == spec_update_eye(*old(state), input_flags, cursor_xy, draw_wh),
        final(state).board.tiles.tiles@ == spec_update_tiles(
            *old(state),
            input_flags,
            cursor_xy,
            draw_wh,
        ),
        final(state).board.labels_view() == spec_update_labels(
            *old(state),
            input_flags,
            text_input@,
            cursor_xy,
            draw_wh,
        ),
        final(state).animation_timer == spec_timer_step(old(state).animation_timer),
        spec_commands_ok(*final(state), final(commands).contents()),
{
    let ghost s0 = *old(state);
    if draw_wh != state.ui.sizes.draw_wh {
        state.ui.sizes = draw::fresh_sizes(draw_wh);
    }
    state.ui.cursor_xy = cursor_xy;
    let left_mouse_button_down = input_flags & INPUT_LEFT_MOUSE_DOWN != 0;
    state.ui.left_mouse_button = if left_mouse_button_down {
        ButtonState::Down
    } else {
        ButtonState::Up
    };
    let input = Input::from_flags(input_flags);
    let left_mouse_button_pressed = input_flags & INPUT_LEFT_MOUSE_CHANGED != 0
        && left_mouse_button_down;
    let left_mouse_button_released = input_flags & INPUT_LEFT_MOUSE_CHANGED != 0
        && !left_mouse_button_down;
    assert(!(left_mouse_button_pressed && left_mouse_button_released));
    if left_mouse_button_pressed {
        let area = state.ui.click_area();
        state.ui.last_pressed = area;
    }
    proof {
        assert(state.ui == spec_ui_pre(s0.ui, input_flags, cursor_xy, draw_wh));
        assert(state.ui.wf());
    }
    let ghost ui1 = *&state.ui;
    match state.ui.mode {
        UiMode::Checking => {
            eye_step(&mut state.board.eye, input, state.animation_timer);
            if left_mouse_button_released {
                let current = state.ui.click_area();
                let commit: Option<ClickArea> = match (current, state.ui.last_pressed) {
                    (Some(cur), Some(last)) => if cur == last {
                        Some(last)
                    } else {
                        None
                    },
                    _ => None,
                };
                proof {
                    assert(commit == spec_commit_area(ui1));
                }
                state.ui.last_pressed = None;
                match commit {
                    Some(ClickArea::TileXY(txy)) => {
                        let i = tile::xy_to_i(txy);
                        let toggled = match state.board.tiles.tiles[i] {
                            cell::Status::Checked => cell::Status::Unchecked,
                            cell::Status::Unchecked => cell::Status::Checked,
                        };
                        state.board.tiles.tiles[i] = toggled;
                    },
                    Some(ClickArea::Labels) => {
                        state.ui.mode = UiMode::EditLabels;
                        state.board.eye.state = EyeState::Idle;
                    },
                    None => {},
                }
            }
        },
        UiMode::EditLabels => {
            if left_mouse_button_released {
                let current = state.ui.click_area();
                let commit: Option<ClickArea> = match (current, state.ui.last_pressed) {
                    (Some(cur), Some(last)) => if cur == last {
                        Some(last)
                    } else {
                        None
                    },
                    _ => None,
                };
                proof {
                    assert(commit == spec_commit_area(ui1));
                }
                state.ui.last_pressed = None;
                match commit {
                    Some(ClickArea::Labels) => {
                        state.ui.mode = UiMode::Checking;
                    },
                    _ => {},
                }
            }
            let ghost labels0 = state.board.labels_view();
            match find_hovered_label_row(&state.ui.sizes, state.ui.cursor_xy) {
                Some(row) => {
                    apply_text_to_label(&mut state.board.labels[row], &text_input);
                    proof {
                        assert(state.board.labels_view() =~= labels0.update(
                            row as int,
                            spec_apply_text(labels0[row as int], text_input@, 0),
                        ));
                    }
                },
                None => {},
            }
        },
    }
    proof {
        assert(state.ui == spec_update_ui(s0, input_flags, cursor_xy, draw_wh));
        assert(state.board.eye == spec_update_eye(s0, input_flags, cursor_xy, draw_wh));
        assert(state.board.tiles.tiles@ == spec_update_tiles(s0, input_flags, cursor_xy, draw_wh));
        assert(state.board.labels_view() =~~= spec_update_labels(
            s0,
            input_flags,
            text_input@,
            cursor_xy,
            draw_wh,
        ));
        assert(state.wf());
    }
    emit_commands(state, commands);
    state.animation_timer = if state.animation_timer + 1 >= ANIMATION_TIMER_LENGTH {
        0
    } else {
        state.animation_timer + 1
    };
}


/// A commit on the label strip toggles the mode: into label editing from
/// checking, back to checking from label editing.
pub proof fn lemma_label_commit_toggles_mode(
    s: State,
    flags: InputFlags,
    cursor: CursorXY,
    wh: DrawWH,
)
    requires
        spec_mouse_released(flags),
        spec_commit_area(spec_ui_pre(s.ui, flags, cursor, wh)) == Some(ClickArea::Labels),
    ensures
        spec_update_ui(s, flags, cursor, wh).mode == spec_mode_toggled(s.ui.mode),
        s.ui.mode == UiMode::Checking ==> spec_update_ui(s, flags, cursor, wh).mode
            == UiMode::EditLabels,
        s.ui.mode == UiMode::EditLabels ==> spec_update_ui(s, flags, cursor, wh).mode
            == UiMode::Checking,
{
}

/// While editing labels no frame mutates the board's tiles, whatever the
/// pointer commits on.
pub proof fn lemma_edit_mode_never_mutates_tiles(
    s: State,
    flags: InputFlags,
    cursor: CursorXY,
    wh: DrawWH,
)
    requires
        s.ui.mode == UiMode::EditLabels,
    ensures
        spec_update_tiles(s, flags, cursor, wh) == s.board.tiles.tiles@,
{
}

/// Typed bytes land only on the label whose text box holds the pointer:
/// every other label keeps its bytes, and with the pointer over no text
/// box, or outside label editing, no label changes at all.
pub proof fn lemma_typing_edits_only_hovered_row(
    s: State,
    flags: InputFlags,
    text: Seq<u8>,
    cursor: CursorXY,
    wh: DrawWH,
)
    requires
        s.board.wf(),
    ensures
        ({
            let labels = s.board.labels_view();
            let after = spec_update_labels(s, flags, text, cursor, wh);
            match spec_hovered_label_row(
                spec_ui_pre(s.ui, flags, cursor, wh).sizes,
                spec_ui_pre(s.ui, flags, cursor, wh).cursor_xy,
                0,
            ) {
                Some(row) => s.ui.mode == UiMode::EditLabels ==> after == labels.update(
                    row,
                    spec_apply_text(labels[row], text, 0),
                ) && forall|j: int| 0 <= j < LABEL_COUNT && j != row ==> after[j] == labels[j],
                None => after == labels,
            }
        }),
        s.ui.mode == UiMode::Checking ==> spec_update_labels(s, flags, text, cursor, wh)
            == s.board.labels_view(),
{
    let ui1 = spec_ui_pre(s.ui, flags, cursor, wh);
    lemma_hovered_label_row_in_range(ui1.sizes, ui1.cursor_xy, 0);
}

/// A found hovered label row is a real row index.
pub proof fn lemma_hovered_label_row_in_range(s: Sizes, c: DrawXY, i: int)
    requires
        0 <= i,
    ensures
        match spec_hovered_label_row(s, c, i) {
            Some(row) => i <= row < LABEL_COUNT,
            None => true,
        },
    decreases LABEL_COUNT - i,
{
    if !(i < 0 || i >= LABEL_COUNT) && !spec_label_row_hit(s, c, i) {
        lemma_hovered_label_row_in_range(s, c, i + 1);
    }
}


/// A full commit frame on a tile while checking: with no directional input
/// that frame, exactly that cell toggles; every other cell, every label, the
/// eye's position and the mode are untouched.
pub proof fn lemma_tile_commit_frame(
    s: State,
    flags: InputFlags,
    text: Seq<u8>,
    cursor: CursorXY,
    wh: DrawWH,
    txy: tile::XY,
)
    requires
        s.ui.mode == UiMode::Checking,
        s.board.tiles.wf(),
        txy.wf(),
        spec_mouse_released(flags),
        spec_commit_area(spec_ui_pre(s.ui, flags, cursor, wh)) == Some(ClickArea::TileXY(txy)),
        !(spec_input_from_flags(flags) is Dir),
    ensures
        spec_update_tiles(s, flags, cursor, wh)[tile::spec_xy_to_i(txy)] == spec_toggle_status(
            s.board.tiles.tiles@[tile::spec_xy_to_i(txy)],
        ),
        forall|j: int|
            0 <= j < TILES_LENGTH && j != tile::spec_xy_to_i(txy)
                ==> spec_update_tiles(s, flags, cursor, wh)[j] == s.board.tiles.tiles@[j],
        spec_update_labels(s, flags, text, cursor, wh) == s.board.labels_view(),
        spec_update_eye(s, flags, cursor, wh).xy == s.board.eye.xy,
        spec_update_ui(s, flags, cursor, wh).mode == UiMode::Checking,
{
    lemma_commit_toggles_tile(s, flags, cursor, wh, txy);
}

/// The typed bytes of a frame leave every label alone when none come before
/// the terminating zero.
proof fn lemma_empty_text_leaves_labels(
    s: State,
    flags: InputFlags,
    text: Seq<u8>,
    cursor: CursorXY,
    wh: DrawWH,
)
    requires
        s.board.wf(),
        text.len() == 0 || text[0] == 0,
    ensures
        spec_update_labels(s, flags, text, cursor, wh) == s.board.labels_view(),
{
    let labels = s.board.labels_view();
    let ui1 = spec_ui_pre(s.ui, flags, cursor, wh);
    if s.ui.mode == UiMode::EditLabels {
        match spec_hovered_label_row(ui1.sizes, ui1.cursor_xy, 0) {
            Some(row) => {
                lemma_hovered_label_row_in_range(ui1.sizes, ui1.cursor_xy, 0);
                assert(spec_apply_text(labels[row], text, 0) == labels[row]);
                assert(labels.update(row, labels[row]) =~= labels);
            },
            None => {},
        }
    }
}

/// A full commit frame on the label strip while editing, with nothing typed:
/// the mode returns to Checking and the board — tiles, labels, eye — is
/// exactly as before, so two strip commits in a row restore the mode.
pub proof fn lemma_label_commit_while_editing_frame(
    s: State,
    flags: InputFlags,
    text: Seq<u8>,
    cursor: CursorXY,
    wh: DrawWH,
)
    requires
        s.ui.mode == UiMode::EditLabels,
        s.board.wf(),
        spec_mouse_released(flags),
        spec_commit_area(spec_ui_pre(s.ui, flags, cursor, wh)) == Some(ClickArea::Labels),
        text.len() == 0 || text[0] == 0,
    ensures
        spec_update_ui(s, flags, cursor, wh).mode == UiMode::Checking,
        spec_update_tiles(s, flags, cursor, wh) == s.board.tiles.tiles@,
        spec_update_labels(s, flags, text, cursor, wh) == s.board.labels_view(),
        spec_update_eye(s, flags, cursor, wh) == s.board.eye,
{
    lemma_empty_text_leaves_labels(s, flags, text, cursor, wh);
}

/// A full commit frame on a tile while editing, with nothing typed: the
/// commit is a no-op on the whole board and the mode stays EditLabels; only
/// the pointer latch is cleared.
pub proof fn lemma_tile_commit_while_editing_frame(
    s: State,
    flags: InputFlags,
    text: Seq<u8>,
    cursor: CursorXY,
    wh: DrawWH,
    txy: tile::XY,
)
    requires
        s.ui.mode == UiMode::EditLabels,
        s.board.wf(),
        spec_mouse_released(flags),
        spec_commit_area(spec_ui_pre(s.ui, flags, cursor, wh)) == Some(ClickArea::TileXY(txy)),
        text.len() == 0 || text[0] == 0,
    ensures
        spec_update_ui(s, flags, cursor, wh).mode == UiMode::EditLabels,
        spec_update_ui(s, flags, cursor, wh).last_pressed is None,
        spec_update_tiles(s, flags, cursor, wh) == s.board.tiles.tiles@,
        spec_update_labels(s, flags, text, cursor, wh) == s.board.labels_view(),
        spec_update_eye(s, flags, cursor, wh) == s.board.eye,
{
    lemma_empty_text_leaves_labels(s, flags, text, cursor, wh);
}

/// A frame that types one printable byte while editing, with the pointer
/// over one label row's text box and that label under its bound: the byte
/// is appended to that label alone, and the tiles and the mode are
/// untouched.
pub proof fn lemma_typing_appends_to_hovered_label(
    s: State,
    flags: InputFlags,
    text: Seq<u8>,
    cursor: CursorXY,
    wh: DrawWH,
    row: int,
    b: u8,
)
    requires
        s.ui.mode == UiMode::EditLabels,
        s.board.wf(),
        !spec_mouse_released(flags),
        spec_hovered_label_row(
            spec_ui_pre(s.ui, flags, cursor, wh).sizes,
            spec_ui_pre(s.ui, flags, cursor, wh).cursor_xy,
            0,
        ) == Some(row),
        32 <= b <= 126,
        text.len() >= 2,
        text[0] == b,
        text[1] == 0,
        s.board.labels_view()[row].len() < LABEL_MAX_LEN,
    ensures
        spec_update_labels(s, flags, text, cursor, wh)[row] == s.board.labels_view()[row].push(b),
        forall|j: int|
            0 <= j < LABEL_COUNT && j != row ==> spec_update_labels(s, flags, text, cursor, wh)[j]
                == s.board.labels_view()[j],
        spec_update_tiles(s, flags, cursor, wh) == s.board.tiles.tiles@,
        spec_update_ui(s, flags, cursor, wh).mode == UiMode::EditLabels,
{
    let labels = s.board.labels_view();
    let ui1 = spec_ui_pre(s.ui, flags, cursor, wh);
    lemma_hovered_label_row_in_range(ui1.sizes, ui1.cursor_xy, 0);
    assert(spec_apply_text(labels[row], text, 0) == spec_apply_text(
        spec_apply_byte(labels[row], b),
        text,
        1,
    ));
    assert(spec_apply_byte(labels[row], b) == labels[row].push(b));
}

/// A frame that types one delete byte (8 or 127) while editing, with the
/// pointer over one label row's text box: that label loses its last byte
/// (or stays empty), every other label is untouched.
pub proof fn lemma_delete_pops_hovered_label(
    s: State,
    flags: InputFlags,
    text: Seq<u8>,
    cursor: CursorXY,
    wh: DrawWH,
    row: int,
    b: u8,
)
    requires
        s.ui.mode == UiMode::EditLabels,
        s.board.wf(),
        spec_hovered_label_row(
            spec_ui_pre(s.ui, flags, cursor, wh).sizes,
            spec_ui_pre(s.ui, flags, cursor, wh).cursor_xy,
            0,
        ) == Some(row),
        b == 8 || b == 127,
        text.len() >= 2,
        text[0] == b,
        text[1] == 0,
    ensures
        spec_update_labels(s, flags, text, cursor, wh)[row] == (if s.board.labels_view()[row].len()
            > 0 {
            s.board.labels_view()[row].drop_last()
        } else {
            s.board.labels_view()[row]
        }),
        forall|j: int|
            0 <= j < LABEL_COUNT && j != row ==> spec_update_labels(s, flags, text, cursor, wh)[j]
                == s.board.labels_view()[j],
{
    let labels = s.board.labels_view();
    let ui1 = spec_ui_pre(s.ui, flags, cursor, wh);
    lemma_hovered_label_row_in_range(ui1.sizes, ui1.cursor_xy, 0);
    assert(spec_apply_text(labels[row], text, 0) == spec_apply_text(
        spec_apply_byte(labels[row], b),
        text,
        1,
    ));
}


} // verus!
