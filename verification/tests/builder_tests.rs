use bracket_lib::prelude::RandomNumberGenerator;
use dungeon_crawler::geometry::{Point, NUM_TILES};
use dungeon_crawler::map::{map_idx, GameMap, TileType};
use dungeon_crawler::map_builder::drunkard::DrunkardWalkArchitect;
use dungeon_crawler::map_builder::prefab::{apply_prefab, can_place, points_outside, prefab_by_roll, stamp_prefab};

fn walled() -> GameMap {
    let mut m = GameMap::new();
    for t in m.tiles.iter_mut() {
        *t = TileType::Wall;
    }
    m
}

#[test]
fn miner_only_digs() {
    let mut m = walled();
    let mut rng = RandomNumberGenerator::seeded(42);
    let mut arch = DrunkardWalkArchitect {};
    arch.drunkard(&Point::new(40, 25), &mut rng, &mut m);
    assert_eq!(m.tiles[map_idx(40, 25)], TileType::Floor);
    let floors = m.tiles.iter().filter(|t| **t == TileType::Floor).count();
    assert!(floors >= 1 && floors <= 400);
    assert!(m.tiles.iter().all(|t| *t == TileType::Floor || *t == TileType::Wall));
    assert!(!DrunkardWalkArchitect::is_complete(&m));
    assert!(DrunkardWalkArchitect::is_complete(&GameMap::new()));
}

#[test]
fn random_start_on_map() {
    let mut rng = RandomNumberGenerator::seeded(5);
    let m = GameMap::new();
    for _ in 0..20 {
        assert!(m.in_bounds(DrunkardWalkArchitect::random_start(&mut rng)));
    }
}

#[test]
fn far_tiles_become_walls() {
    let mut m = GameMap::new();
    let mut far = vec![false; NUM_TILES];
    far[7] = true;
    DrunkardWalkArchitect::wall_off(&mut m, &far);
    assert_eq!(m.tiles[7], TileType::Wall);
    assert_eq!(m.tiles.iter().filter(|t| **t == TileType::Wall).count(), 1);
}

#[test]
fn prefab_shapes() {
    for roll in 0..9 {
        let p = prefab_by_roll(roll);
        assert_eq!(p.cells.chars().count() as i32, p.width * p.height);
    }
    assert_eq!(prefab_by_roll(0).width, 12);
    assert_eq!(prefab_by_roll(2).width, 17);
    assert_eq!(prefab_by_roll(8).height, 12);
}

#[test]
fn stamping_the_fortress() {
    let mut m = GameMap::new();
    let mut spawns = vec![];
    let mut rng = RandomNumberGenerator::seeded(9);
    let p = prefab_by_roll(0);
    stamp_prefab(&mut m, &mut spawns, &p, Point::new(10, 20), &mut rng);
    // Row 1 of the fortress is "---######---".
    assert_eq!(m.tiles[map_idx(13, 21)], TileType::Wall);
    assert_eq!(m.tiles[map_idx(12, 21)], TileType::Floor);
    // Row 4 holds poison floor at column 6: "-###--y-###-".
    assert_eq!(m.tiles[map_idx(16, 24)], TileType::PoisonFloor);
    // Row 5 starts with a door at column 1: "-D--M-y---D-".
    assert_eq!(m.tiles[map_idx(11, 25)], TileType::Door);
    let decor = m.tiles[map_idx(13, 22)];
    assert!(decor == TileType::Decorative || decor == TileType::OtherDecorative);
    assert_eq!(spawns, vec![Point::new(15, 23), Point::new(14, 25), Point::new(16, 28)]);
    // Neither the first nor the last row or column is inside the structure.
    assert_eq!(m.prefab_indices.len(), 10 * 9);
    assert!(!m.prefab_indices.contains(&map_idx(10, 21)));
    assert!(m.prefab_indices.contains(&map_idx(11, 21)));
    assert!(m.prefab_indices.contains(&map_idx(20, 29)));
    assert!(!m.prefab_indices.contains(&map_idx(21, 21)));
    assert!(!m.prefab_indices.contains(&map_idx(11, 30)));
    assert_eq!(m.tiles[map_idx(9, 20)], TileType::Floor);
}

#[test]
fn placing_needs_a_reachable_tile() {
    let p = prefab_by_roll(3);
    let far = vec![u32::MAX; NUM_TILES];
    assert!(!can_place(&p, Point::new(0, 0), &far, Point::new(40, 25), Point::new(-1, -1)));
    let mut some = far.clone();
    some[map_idx(5, 5)] = 100;
    assert!(can_place(&p, Point::new(0, 0), &some, Point::new(40, 25), Point::new(-1, -1)));
    assert!(!can_place(&p, Point::new(0, 0), &some, Point::new(5, 5), Point::new(-1, -1)));
    // Neither the player's start nor the goal may lie in the rectangle.
    assert!(!can_place(&p, Point::new(0, 0), &some, Point::new(2, 2), Point::new(-1, -1)));
    assert!(!can_place(&p, Point::new(0, 0), &some, Point::new(40, 25), Point::new(10, 11)));
    assert!(can_place(&p, Point::new(0, 0), &some, Point::new(40, 25), Point::new(11, 11)));
    let spawns = vec![Point::new(1, 1), Point::new(30, 30), Point::new(10, 11)];
    // The tomb covers columns 0 to 10 and rows 0 to 11.
    assert_eq!(points_outside(&p, Point::new(0, 0), &spawns), vec![Point::new(30, 30)]);
}

#[test]
fn no_room_leaves_map_alone() {
    let mut m = GameMap::new();
    let mut spawns = vec![Point::new(3, 3)];
    let mut rng = RandomNumberGenerator::seeded(11);
    let far = vec![u32::MAX; NUM_TILES];
    apply_prefab(&mut m, &mut spawns, Point::new(40, 25), Point::new(-1, -1), &far, &mut rng);
    assert!(m.tiles.iter().all(|t| *t == TileType::Floor));
    assert!(m.prefab_indices.is_empty());
    assert_eq!(spawns, vec![Point::new(3, 3)]);
}

#[test]
fn room_everywhere_stamps_four_times() {
    let mut m = GameMap::new();
    let mut spawns = vec![];
    let mut rng = RandomNumberGenerator::seeded(12);
    let near = vec![100u32; NUM_TILES];
    apply_prefab(&mut m, &mut spawns, Point::new(40, 25), Point::new(-1, -1), &near, &mut rng);
    assert!(m.tiles.iter().any(|t| *t == TileType::Wall));
    assert_eq!(spawns.len() % 4, 0);
    assert!(!m.prefab_indices.is_empty());
    assert_eq!(m.prefab_indices.len() % 4, 0);
}
