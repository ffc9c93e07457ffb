use dungeon_crawler::geometry::{Point, NUM_TILES};
use dungeon_crawler::map::{map_idx, GameMap, TileType};

#[test]
fn new_map_is_all_unrevealed_floor() {
    let m = GameMap::new();
    assert_eq!(m.tiles.len(), NUM_TILES);
    assert_eq!(m.revealed_tiles.len(), NUM_TILES);
    assert!(m.tiles.iter().all(|t| *t == TileType::Floor));
    assert!(m.revealed_tiles.iter().all(|r| !*r));
    assert!(!m.key_carried);
    assert!(m.spawned_points.is_empty());
    assert!(m.prefab_indices.is_empty());
}

#[test]
fn map_idx_is_row_major() {
    assert_eq!(map_idx(0, 0), 0);
    assert_eq!(map_idx(3, 2), 163);
    assert_eq!(map_idx(79, 49), 3999);
    // A negative sum wraps around when converted.
    assert_eq!(map_idx(-1, 0), usize::MAX);
}

#[test]
fn bounds_edges() {
    let m = GameMap::new();
    assert!(m.in_bounds(Point::new(0, 0)));
    assert!(m.in_bounds(Point::new(79, 49)));
    assert!(!m.in_bounds(Point::new(80, 0)));
    assert!(!m.in_bounds(Point::new(0, 50)));
    assert!(!m.in_bounds(Point::new(-1, 3)));
    assert!(!m.in_bounds(Point::new(3, -1)));
}

#[test]
fn try_idx_in_and_out() {
    let m = GameMap::new();
    assert_eq!(m.try_idx(Point::new(5, 1)), Some(85));
    assert_eq!(m.try_idx(Point::new(80, 1)), None);
}

#[test]
fn index_point_roundtrip() {
    let m = GameMap::new();
    for i in [0usize, 1, 79, 80, 1234, 3999] {
        let p = m.index_to_point2d(i);
        assert!(m.in_bounds(p));
        assert_eq!(m.point2d_to_index(p), i);
    }
    assert_eq!(m.index_to_point2d(163), Point::new(3, 2));
    assert_eq!(m.dimensions(), Point::new(80, 50));
}

#[test]
fn who_may_enter() {
    let mut m = GameMap::new();
    let p = Point::new(10, 10);
    let i = map_idx(10, 10);
    for (t, open) in [
        (TileType::Floor, true),
        (TileType::PoisonFloor, true),
        (TileType::Exit, true),
        (TileType::Wall, false),
        (TileType::Decorative, false),
        (TileType::OtherDecorative, false),
        (TileType::Door, false),
    ] {
        m.tiles[i] = t;
        assert_eq!(m.can_enter_tile(p), open, "{:?}", t);
    }
    m.key_carried = true;
    assert!(m.can_enter_tile(p));
    assert!(!m.can_enter_tile(Point::new(-1, 10)));
}

#[test]
fn exits_in_order_west_east_north_south() {
    let mut m = GameMap::new();
    let centre = map_idx(10, 10);
    assert_eq!(
        m.get_available_exits(centre),
        vec![map_idx(9, 10), map_idx(11, 10), map_idx(10, 9), map_idx(10, 11)]
    );
    m.tiles[map_idx(11, 10)] = TileType::Wall;
    assert_eq!(m.get_available_exits(centre), vec![map_idx(9, 10), map_idx(10, 9), map_idx(10, 11)]);
    // The corner has only two neighbours on the map.
    assert_eq!(m.get_available_exits(0), vec![1, 80]);
}

#[test]
fn valid_exit_checks_destination() {
    let mut m = GameMap::new();
    assert_eq!(m.valid_exit(Point::new(0, 0), Point::new(-1, 0)), None);
    assert_eq!(m.valid_exit(Point::new(0, 0), Point::new(1, 0)), Some(1));
    m.tiles[1] = TileType::Door;
    assert_eq!(m.valid_exit(Point::new(0, 0), Point::new(1, 0)), None);
}

#[test]
fn floors_are_transparent() {
    let mut m = GameMap::new();
    assert!(!m.is_opaque(0));
    m.tiles[0] = TileType::PoisonFloor;
    assert!(!m.is_opaque(0));
    for t in [TileType::Wall, TileType::Door, TileType::Exit, TileType::Decorative, TileType::OtherDecorative] {
        m.tiles[0] = t;
        assert!(m.is_opaque(0));
    }
}
