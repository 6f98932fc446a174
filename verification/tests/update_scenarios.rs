use interaction_checklist::cell::Status;
use interaction_checklist::draw::{draw_xy_from_tile, top_label_rect, Command, DrawWH, DrawXY};
use interaction_checklist::input::{TextInput, INPUT_LEFT_MOUSE_CHANGED, INPUT_LEFT_MOUSE_DOWN};
use interaction_checklist::state::{EyeState, State, UiMode, ANIMATION_TIMER_LENGTH};
use interaction_checklist::tile::{xy_to_i, X, XY, Y};
use interaction_checklist::update::update;

// 1366 x 768 pixels, in subpixels.
const EXAMPLE_WH: DrawWH = DrawWH { w: 1366 * 16, h: 768 * 16 };

const PRESS: u16 = INPUT_LEFT_MOUSE_CHANGED | INPUT_LEFT_MOUSE_DOWN;
const RELEASE: u16 = INPUT_LEFT_MOUSE_CHANGED;

fn no_text() -> TextInput {
    [0; 16]
}

fn step(state: &mut State, flags: u16, text: TextInput, cursor: DrawXY) {
    let mut commands: Vec<Command> = Vec::new();
    update(state, &mut commands, flags, text, cursor, EXAMPLE_WH);
}

fn step_collect(state: &mut State, flags: u16, text: TextInput, cursor: DrawXY) -> Vec<Command> {
    let mut commands: Vec<Command> = Vec::new();
    update(state, &mut commands, flags, text, cursor, EXAMPLE_WH);
    commands
}

fn checked_count(state: &State) -> usize {
    state.board.tiles.tiles.iter().filter(|s| **s == Status::Checked).count()
}

fn tile_corner(state: &State, x: u8, y: u8) -> DrawXY {
    draw_xy_from_tile(&interaction_checklist::sizes(state), XY { x: X(x), y: Y(y) })
}

fn strip_corner(state: &State) -> DrawXY {
    let rect = top_label_rect(&interaction_checklist::sizes(state));
    DrawXY { x: rect.min_x, y: rect.min_y }
}

fn fresh_state() -> State {
    let mut state = State::default();
    // One idle frame so the layout for the example window is cached.
    step(&mut state, 0, no_text(), DrawXY { x: 0, y: 0 });
    state
}

#[test]
fn drag_off_release_does_not_toggle() {
    let mut state = fresh_state();
    let press_at = tile_corner(&state, 3, 3);
    let release_at = tile_corner(&state, 4, 4);
    step(&mut state, PRESS, no_text(), press_at);
    step(&mut state, RELEASE, no_text(), release_at);
    assert_eq!(checked_count(&state), 0);
}

#[test]
fn press_and_release_on_the_same_tile_toggles_exactly_once() {
    let mut state = fresh_state();
    let spot = tile_corner(&state, 3, 3);
    step(&mut state, PRESS, no_text(), spot);
    step(&mut state, RELEASE, no_text(), spot);
    assert_eq!(checked_count(&state), 1);
    assert_eq!(
        state.board.tiles.tiles[xy_to_i(XY { x: X(3), y: Y(3) })],
        Status::Checked
    );

    // A second full click toggles it back off.
    step(&mut state, PRESS, no_text(), spot);
    step(&mut state, RELEASE, no_text(), spot);
    assert_eq!(checked_count(&state), 0);
}

#[test]
fn release_with_nothing_latched_fires_nothing() {
    let mut state = fresh_state();
    let off_board = DrawXY { x: 0, y: 0 };
    let spot = tile_corner(&state, 2, 2);
    step(&mut state, PRESS, no_text(), off_board);
    step(&mut state, RELEASE, no_text(), spot);
    assert_eq!(checked_count(&state), 0);
    assert!(matches!(state.ui.mode, UiMode::Checking));
}

#[test]
fn label_strip_commit_switches_modes_both_ways() {
    let mut state = fresh_state();
    let strip = strip_corner(&state);
    step(&mut state, PRESS, no_text(), strip);
    step(&mut state, RELEASE, no_text(), strip);
    assert!(matches!(state.ui.mode, UiMode::EditLabels));

    step(&mut state, PRESS, no_text(), strip);
    step(&mut state, RELEASE, no_text(), strip);
    assert!(matches!(state.ui.mode, UiMode::Checking));
}

#[test]
fn tile_commit_while_editing_labels_mutates_no_board_state() {
    let mut state = fresh_state();
    let strip = strip_corner(&state);
    step(&mut state, PRESS, no_text(), strip);
    step(&mut state, RELEASE, no_text(), strip);
    assert!(matches!(state.ui.mode, UiMode::EditLabels));

    let spot = tile_corner(&state, 3, 3);
    step(&mut state, PRESS, no_text(), spot);
    step(&mut state, RELEASE, no_text(), spot);
    assert_eq!(checked_count(&state), 0);
    assert!(matches!(state.ui.mode, UiMode::EditLabels));
}

#[test]
fn entering_label_editing_forces_the_eye_idle() {
    let mut state = fresh_state();
    // Shrink the pupil first, so the forced Idle is observable.
    step(
        &mut state,
        interaction_checklist::INPUT_INTERACT_PRESSED,
        no_text(),
        DrawXY { x: 0, y: 0 },
    );
    assert!(matches!(state.board.eye.state, EyeState::SmallPupil));
    let strip = strip_corner(&state);
    step(&mut state, PRESS, no_text(), strip);
    step(&mut state, RELEASE, no_text(), strip);
    assert!(matches!(state.ui.mode, UiMode::EditLabels));
    assert!(matches!(state.board.eye.state, EyeState::Idle));
}

// For the example window: margin 341, row height 1536 - 341 = 1195,
// rows start at y = 341, text boxes start at x = 14 + 341 = 355.
fn row_box_point(i: i64) -> DrawXY {
    DrawXY { x: 400, y: 341 + i * 1195 + 10 }
}

fn enter_edit_mode(state: &mut State) {
    let strip = strip_corner(state);
    step(state, PRESS, no_text(), strip);
    step(state, RELEASE, no_text(), strip);
    assert!(matches!(state.ui.mode, UiMode::EditLabels));
}

#[test]
fn typing_appends_to_the_hovered_label_only() {
    let mut state = fresh_state();
    enter_edit_mode(&mut state);
    let mut text = no_text();
    text[0] = 65;
    step(&mut state, 0, text, row_box_point(2));
    assert_eq!(state.board.labels[2], vec![65]);
    for i in 0..16 {
        if i != 2 {
            assert!(state.board.labels[i].is_empty());
        }
    }
}

#[test]
fn backspace_removes_the_last_byte_of_the_hovered_label() {
    let mut state = fresh_state();
    enter_edit_mode(&mut state);
    let mut text = no_text();
    text[0] = 65;
    text[1] = 66;
    step(&mut state, 0, text, row_box_point(2));
    assert_eq!(state.board.labels[2], vec![65, 66]);
    let mut backspace = no_text();
    backspace[0] = 8;
    step(&mut state, 0, backspace, row_box_point(2));
    assert_eq!(state.board.labels[2], vec![65]);
    // 127 deletes as well.
    let mut delete = no_text();
    delete[0] = 127;
    step(&mut state, 0, delete, row_box_point(2));
    assert!(state.board.labels[2].is_empty());
}

#[test]
fn typing_away_from_every_text_box_mutates_nothing() {
    let mut state = fresh_state();
    enter_edit_mode(&mut state);
    let mut text = no_text();
    text[0] = 65;
    step(&mut state, 0, text, DrawXY { x: 0, y: 0 });
    for i in 0..16 {
        assert!(state.board.labels[i].is_empty());
    }
}

#[test]
fn typing_while_checking_mutates_nothing() {
    let mut state = fresh_state();
    let mut text = no_text();
    text[0] = 65;
    step(&mut state, 0, text, row_box_point(2));
    for i in 0..16 {
        assert!(state.board.labels[i].is_empty());
    }
}

#[test]
fn long_labels_are_shown_truncated_with_an_ellipsis() {
    let mut state = fresh_state();
    enter_edit_mode(&mut state);
    let mut text = no_text();
    for (i, b) in (65..75).enumerate() {
        text[i] = b;
    }
    let commands = step_collect(&mut state, 0, text, row_box_point(0));
    assert_eq!(state.board.labels[0].len(), 10);
    // While editing: eye, arrow, then the sixteen label slots.
    match &commands[2] {
        Command::Text(ts) => {
            assert_eq!(ts.text, vec![65, 66, 67, 68, 69, 46, 46, 46]);
        },
        other => panic!("expected a text command, got {other:?}"),
    }
    // The editor row shows the row number and the whole label.
    match &commands[18] {
        Command::Text(ts) => {
            assert_eq!(
                ts.text,
                vec![48, 58, 32, 65, 66, 67, 68, 69, 70, 71, 72, 73, 74]
            );
        },
        other => panic!("expected a text command, got {other:?}"),
    }
}

#[test]
fn command_list_has_one_entry_per_visible_element() {
    let mut state = fresh_state();
    let commands = step_collect(&mut state, 0, no_text(), DrawXY { x: 0, y: 0 });
    // Checking: 256 tiles, the eye, the arrow, 16 label slots.
    assert_eq!(commands.len(), 256 + 2 + 16);
    enter_edit_mode(&mut state);
    let commands = step_collect(&mut state, 0, no_text(), DrawXY { x: 0, y: 0 });
    // Editing: no tiles, but 16 editor rows besides eye, arrow and slots.
    assert_eq!(commands.len(), 2 + 16 + 16);
}

#[test]
fn animation_timer_wraps_and_the_eye_cycle_keeps_phase() {
    let zero_wh = DrawWH { w: 0, h: 0 };
    let mut state = State::default();
    let mut commands: Vec<Command> = Vec::new();
    let len = ANIMATION_TIMER_LENGTH as usize;
    // Record one whole narrow-animation cycle well past the start-up
    // transient, then compare it against the same frames one timer cycle
    // later.
    let window_start = 1800;
    let window_end = 2400;
    let mut recorded: Vec<EyeState> = Vec::new();
    for frame in 0..len {
        if window_start <= frame && frame < window_end {
            recorded.push(state.board.eye.state);
        }
        update(
            &mut state,
            &mut commands,
            0,
            [0; 16],
            DrawXY { x: 0, y: 0 },
            zero_wh,
        );
    }
    // After exactly one whole cycle of update calls the timer is back at 0.
    assert_eq!(state.animation_timer, 0);
    for frame in len..(len + window_end) {
        if window_start <= frame - len {
            assert_eq!(
                state.board.eye.state,
                recorded[frame - len - window_start],
                "eye phase diverged at frame {frame}"
            );
        }
        update(
            &mut state,
            &mut commands,
            0,
            [0; 16],
            DrawXY { x: 0, y: 0 },
            zero_wh,
        );
    }
}
