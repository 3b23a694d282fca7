use tilegrid::{DirInfo, PlaneDir, Tile};

const ALL: [PlaneDir; 4] = [PlaneDir::North, PlaneDir::East, PlaneDir::South, PlaneDir::West];

#[test]
fn fresh_tile_has_default_info_everywhere() {
    let t = Tile::new();
    assert_eq!(t.facing(), PlaneDir::North);
    assert_eq!(Tile::DEFAULT_FACING, PlaneDir::North);
    for d in ALL {
        assert_eq!(t.get(&d), DirInfo { elevation_delta: 0, enterable: true });
    }
}

#[test]
fn set_info_is_read_back_and_others_keep_default() {
    let mut t = Tile::new();
    let wall = DirInfo { elevation_delta: 0, enterable: false };
    let stair = DirInfo { elevation_delta: -1, enterable: true };
    t.set(&PlaneDir::East, wall);
    t.set(&PlaneDir::West, stair);
    assert_eq!(t.get(&PlaneDir::East), wall);
    assert_eq!(t.get(&PlaneDir::West), stair);
    assert_eq!(t.get(&PlaneDir::North), DirInfo { elevation_delta: 0, enterable: true });
    assert_eq!(t.get(&PlaneDir::South), DirInfo { elevation_delta: 0, enterable: true });
    assert_eq!(t.facing(), PlaneDir::North);
    t.set(&PlaneDir::East, stair);
    assert_eq!(t.get(&PlaneDir::East), stair);
}
