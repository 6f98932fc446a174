use interaction_checklist::input::{
    Dir, Input, INPUT_DOWN_DOWN, INPUT_INTERACT_PRESSED, INPUT_LEFT_DOWN, INPUT_RIGHT_DOWN,
    INPUT_UP_DOWN,
};

#[test]
fn interact_beats_any_directional_combination() {
    let flags = INPUT_INTERACT_PRESSED | INPUT_UP_DOWN | INPUT_RIGHT_DOWN;
    assert_eq!(Input::from_flags(flags), Input::Interact);
}

#[test]
fn diagonal_pairs_beat_single_directions() {
    assert_eq!(
        Input::from_flags(INPUT_UP_DOWN | INPUT_RIGHT_DOWN),
        Input::Dir(Dir::UpRight)
    );
    assert_eq!(
        Input::from_flags(INPUT_DOWN_DOWN | INPUT_RIGHT_DOWN),
        Input::Dir(Dir::DownRight)
    );
    assert_eq!(
        Input::from_flags(INPUT_DOWN_DOWN | INPUT_LEFT_DOWN),
        Input::Dir(Dir::DownLeft)
    );
    assert_eq!(
        Input::from_flags(INPUT_UP_DOWN | INPUT_LEFT_DOWN),
        Input::Dir(Dir::UpLeft)
    );
}

#[test]
fn single_held_directions_decode_plainly() {
    assert_eq!(Input::from_flags(INPUT_UP_DOWN), Input::Dir(Dir::Up));
    assert_eq!(Input::from_flags(INPUT_DOWN_DOWN), Input::Dir(Dir::Down));
    assert_eq!(Input::from_flags(INPUT_LEFT_DOWN), Input::Dir(Dir::Left));
    assert_eq!(Input::from_flags(INPUT_RIGHT_DOWN), Input::Dir(Dir::Right));
    assert_eq!(Input::from_flags(0), Input::NoChange);
}
