use interaction_checklist::tile::{i_to_xy, xy_to_i, xy_to_i_usize, X, XY, Y};

#[test]
fn index_mapping_is_a_bijection() {
    for i in 0..256usize {
        let xy = i_to_xy(i);
        assert_eq!(xy_to_i(xy), i);
    }
    assert_eq!(xy_to_i_usize((3, 2)), 2 * 16 + 3);
}

#[test]
fn moves_saturate_at_every_edge() {
    let mut corner = XY { x: X(0), y: Y(0) };
    corner.move_up();
    corner.move_left();
    assert_eq!(corner, XY { x: X(0), y: Y(0) });

    let mut far = XY { x: X(15), y: Y(15) };
    far.move_down();
    far.move_right();
    assert_eq!(far, XY { x: X(15), y: Y(15) });

    let mut mid = XY { x: X(7), y: Y(7) };
    mid.move_right();
    mid.move_down();
    assert_eq!(mid, XY { x: X(8), y: Y(8) });
}

#[test]
fn coordinate_construction_is_bounds_checked() {
    assert_eq!(X::try_from(15), Ok(X(15)));
    assert_eq!(X::try_from(16), Err(()));
    assert_eq!(Y::try_from(0), Ok(Y(0)));
    assert_eq!(Y::try_from(255), Err(()));
    assert_eq!(X(9).coord(), 9);
}

#[test]
fn saturating_steps_match_their_bounds() {
    assert_eq!(X(15).saturating_add_one(), X(15));
    assert_eq!(X(0).saturating_sub_one(), X(0));
    assert_eq!(Y(14).saturating_add_one(), Y(15));
    assert_eq!(Y(1).saturating_sub_one(), Y(0));
}
