use tilegrid::{Coord, Display, Rect};

#[test]
fn display_geometry_for_a_720p_screen() {
    let d = Display::new(1280, 720, 48, 32);
    // margin 1280 / 40 = 32, usable 1216, side 1216 / 48 = 25
    assert_eq!(d.tile_side_len, 25);
    assert_eq!(d.grid_rect, Rect { x: 32, y: 32, w: 1200, h: 800 });
    assert_eq!(d.grid_size, (48, 32));
}

#[test]
fn tile_rect_is_inset_cell() {
    let d = Display::new(1280, 720, 48, 32);
    assert_eq!(d.tile_rect(&Coord { x: 0, y: 0 }), Rect { x: 33, y: 33, w: 23, h: 23 });
    assert_eq!(d.tile_rect(&Coord { x: 2, y: 1 }), Rect { x: 83, y: 58, w: 23, h: 23 });
}

#[test]
fn tile_centres_map_back() {
    let d = Display::new(1280, 720, 48, 32);
    for x in 0..48 {
        for y in 0..32 {
            let r = d.tile_rect(&Coord { x, y });
            let cx = (r.x + r.w / 2) as i64;
            let cy = (r.y + r.h / 2) as i64;
            assert_eq!(d.get_tile_coord_from_pos((cx, cy)), Some(Coord { x, y }));
        }
    }
}

#[test]
fn tile_centres_map_back_with_one_pixel_tiles() {
    // margin 1, usable 48, side 1
    let d = Display::new(50, 50, 48, 2);
    assert_eq!(d.tile_side_len, 1);
    let r = d.tile_rect(&Coord { x: 5, y: 1 });
    assert_eq!(r, Rect { x: 7, y: 3, w: -1, h: -1 });
    // the centre rounds down to the cell's own pixel
    assert_eq!(d.get_tile_coord_from_pos((6, 2)), Some(Coord { x: 5, y: 1 }));
}

#[test]
fn points_outside_grid_map_to_none() {
    let d = Display::new(1280, 720, 48, 32);
    assert_eq!(d.get_tile_coord_from_pos((-5, 100)), None);
    assert_eq!(d.get_tile_coord_from_pos((100, -5)), None);
    assert_eq!(d.get_tile_coord_from_pos((31, 40)), None);
    // far edges are excluded
    assert_eq!(d.get_tile_coord_from_pos((32 + 1200, 40)), None);
    assert_eq!(d.get_tile_coord_from_pos((40, 32 + 800)), None);
    assert_eq!(d.get_tile_coord_from_pos((i64::MAX, i64::MIN)), None);
}

#[test]
fn edge_points_inside_grid() {
    let d = Display::new(1280, 720, 48, 32);
    assert_eq!(d.get_tile_coord_from_pos((32, 32)), Some(Coord { x: 0, y: 0 }));
    assert_eq!(d.get_tile_coord_from_pos((32 + 1199, 32 + 799)), Some(Coord { x: 47, y: 31 }));
    assert_eq!(d.get_tile_coord_from_pos((32 + 25, 32 + 24)), Some(Coord { x: 1, y: 0 }));
}

#[test]
fn no_columns_means_no_grid() {
    let d = Display::new(1280, 720, 0, 32);
    assert_eq!(d.tile_side_len, 0);
    assert_eq!(d.grid_rect.w, 0);
    assert_eq!(d.get_tile_coord_from_pos((40, 40)), None);
}

#[test]
fn screen_narrower_than_columns_keeps_one_pixel_tiles() {
    // margin 0, usable 30, 30 / 48 rounds to 0, raised to 1
    let d = Display::new(30, 30, 48, 32);
    assert_eq!(d.tile_side_len, 1);
    assert_eq!(d.grid_rect, Rect { x: 0, y: 0, w: 48, h: 32 });
    assert_eq!(d.get_tile_coord_from_pos((0, 0)), Some(Coord { x: 0, y: 0 }));
    assert_eq!(d.get_tile_coord_from_pos((47, 31)), Some(Coord { x: 47, y: 31 }));
    // the centre of each tile, rounded down, maps back to it
    for x in 0..48 {
        for y in 0..32 {
            let r = d.tile_rect(&Coord { x, y });
            let cx = (r.x + r.w.div_euclid(2)) as i64;
            let cy = (r.y + r.h.div_euclid(2)) as i64;
            assert_eq!(d.get_tile_coord_from_pos((cx, cy)), Some(Coord { x, y }));
        }
    }
}

#[test]
fn zero_width_screen_keeps_one_pixel_tiles() {
    let d = Display::new(0, 0, 3, 2);
    assert_eq!(d.tile_side_len, 1);
    assert_eq!(d.get_tile_coord_from_pos((2, 1)), Some(Coord { x: 2, y: 1 }));
}

#[test]
fn tile_rects_lists_cells_column_by_column() {
    let d = Display::new(400, 300, 4, 3);
    // margin 10, usable 380, side 95
    let rects = d.tile_rects();
    assert_eq!(rects.len(), 12);
    for x in 0..4usize {
        for y in 0..3usize {
            assert_eq!(rects[x * 3 + y], d.tile_rect(&Coord { x, y }));
        }
    }
    assert_eq!(rects[4], Rect { x: 106, y: 106, w: 93, h: 93 });
}

#[test]
fn rect_contains_excludes_far_edges() {
    let r = Rect { x: 10, y: 20, w: 5, h: 3 };
    assert!(r.contains(10, 20));
    assert!(r.contains(14, 22));
    assert!(!r.contains(15, 21));
    assert!(!r.contains(12, 23));
    assert!(!r.contains(9, 21));
    assert!(!r.contains(12, 19));
    assert!(!Rect { x: 0, y: 0, w: 0, h: 10 }.contains(0, 0));
}
