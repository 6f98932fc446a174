use interaction_checklist::draw::{fresh_sizes, DrawWH};

#[test]
fn example_window_layout_is_exact() {
    // 1366 x 768 pixels: the width bound (642 subpixels per tile) governs,
    // so the tile side truncates to 640 subpixels = 40 whole pixels.
    let sizes = fresh_sizes(DrawWH { w: 1366 * 16, h: 768 * 16 });
    assert_eq!(sizes.tile_side_length, 640);
    assert_eq!(sizes.play_xywh.x, 14);
    assert_eq!(sizes.play_xywh.y, 687);
    assert_eq!(sizes.play_xywh.w, 21828);
    assert_eq!(sizes.play_xywh.h, 10914);
    assert_eq!(sizes.board_xywh.x, 5809);
    assert_eq!(sizes.board_xywh.y, 1344);
    assert_eq!(sizes.board_xywh.w, 10240);
    assert_eq!(sizes.board_xywh.h, 10240);
}

#[test]
fn degenerate_window_falls_back_to_the_safe_side_length() {
    // A negative extent stands for an unusable sampled size.
    let sizes = fresh_sizes(DrawWH { w: -16, h: -16 });
    assert_eq!(sizes.tile_side_length, 100 * 16);
}

#[test]
fn zero_window_collapses_without_fallback() {
    let sizes = fresh_sizes(DrawWH { w: 0, h: 0 });
    assert_eq!(sizes.tile_side_length, 0);
    assert_eq!(sizes.play_xywh.w, 0);
}

#[test]
fn near_tied_bounds_split_the_fraction_between_both_axes() {
    // 680 x 340 pixels: width bound 10880/34 = 320, height bound
    // 5440/17 = 320; tied, so both centring offsets take half the
    // (zero) fraction and the height bound governs.
    let sizes = fresh_sizes(DrawWH { w: 680 * 16, h: 340 * 16 });
    assert_eq!(sizes.tile_side_length, 320);
    assert_eq!(sizes.play_xywh.w, 320 * 34);
    assert_eq!(sizes.play_xywh.h, 320 * 17);
}
