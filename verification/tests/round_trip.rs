use interaction_checklist::draw::{draw_xy_from_tile, fresh_sizes, tile_xy_from_draw, DrawWH};
use interaction_checklist::tile::all_xys;

// 1366 x 768 pixels, in subpixels.
const EXAMPLE_WH: DrawWH = DrawWH { w: 1366 * 16, h: 768 * 16 };

#[test]
fn all_the_tile_xys_round_trip_through_draw_xy() {
    let sizes = fresh_sizes(EXAMPLE_WH);

    for txy in all_xys() {
        let round_tripped = tile_xy_from_draw(&sizes, draw_xy_from_tile(&sizes, txy)).unwrap();

        assert_eq!(round_tripped, txy);
    }
}

#[test]
fn all_the_tile_xys_round_trip_through_draw_xy_when_offset_slightly() {
    let sizes = fresh_sizes(EXAMPLE_WH);

    for txy in all_xys() {
        let mut draw_xy = draw_xy_from_tile(&sizes, txy);
        draw_xy.x += sizes.tile_side_length / 8;
        draw_xy.y += sizes.tile_side_length / 8;

        let round_tripped = tile_xy_from_draw(&sizes, draw_xy).unwrap();

        assert_eq!(round_tripped, txy);
    }
}

#[test]
fn a_point_just_left_of_the_board_maps_to_no_tile() {
    let sizes = fresh_sizes(EXAMPLE_WH);
    let mut p = draw_xy_from_tile(
        &sizes,
        interaction_checklist::tile::XY {
            x: interaction_checklist::tile::X(0),
            y: interaction_checklist::tile::Y(0),
        },
    );
    p.x -= 1;
    assert_eq!(tile_xy_from_draw(&sizes, p), None);
}

#[test]
fn adjacent_cells_share_an_edge_but_no_point() {
    let sizes = fresh_sizes(EXAMPLE_WH);
    let a = interaction_checklist::tile::XY {
        x: interaction_checklist::tile::X(4),
        y: interaction_checklist::tile::Y(7),
    };
    let b = interaction_checklist::tile::XY {
        x: interaction_checklist::tile::X(5),
        y: interaction_checklist::tile::Y(7),
    };
    let corner_a = draw_xy_from_tile(&sizes, a);
    let corner_b = draw_xy_from_tile(&sizes, b);
    // The next column starts exactly where this one ends.
    assert_eq!(corner_a.x + sizes.tile_side_length, corner_b.x);
    // The shared edge belongs to the right cell alone.
    assert_eq!(tile_xy_from_draw(&sizes, corner_b), Some(b));
    let just_inside_a = interaction_checklist::DrawXY { x: corner_b.x - 1, y: corner_b.y };
    assert_eq!(tile_xy_from_draw(&sizes, just_inside_a), Some(a));
}
