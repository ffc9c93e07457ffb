use dungeon_crawler::components::{FieldOfView, Health, Score, WantsToAttack, WantsToMove};
use dungeon_crawler::geometry::Point;
use dungeon_crawler::map::{map_idx, GameMap, TileType};
use dungeon_crawler::sounds::Sound;
use dungeon_crawler::systems::chasing::{chasing, distances_fit, farther_than_adjacent, step_to, Chaser, Occupant, TurnCommand};
use dungeon_crawler::systems::key_handle::key_handle;
use dungeon_crawler::systems::movement::{movement, poison_step, MoverInfo};
use dungeon_crawler::systems::random_move::{may_step, random_move, wander};
use dungeon_crawler::systems::use_item::{apply_armor, apply_healing, apply_poison_resistance, use_item, ItemUse};
use dungeon_crawler::components::Armor;
use legion::{Entity, World};

fn entities(n: usize) -> Vec<Entity> {
    let mut w = World::default();
    (0..n).map(|i| w.push((i as u32,))).collect()
}

#[test]
fn adjacency() {
    assert!(!farther_than_adjacent(Point::new(3, 3), Point::new(4, 3)));
    assert!(!farther_than_adjacent(Point::new(3, 3), Point::new(3, 3)));
    assert!(farther_than_adjacent(Point::new(3, 3), Point::new(4, 4)));
    assert!(farther_than_adjacent(Point::new(3, 3), Point::new(5, 3)));
}

#[test]
fn chaser_attacks_adjacent_player() {
    let e = entities(2);
    let map = GameMap::new();
    let player = Point::new(5, 5);
    let movers = vec![Chaser { entity: e[0], pos: Point::new(4, 5), sees_player: true, lowest_exit: Some(map_idx(5, 5)) }];
    let positions = vec![
        Occupant { entity: e[1], pos: player, is_player: true },
        Occupant { entity: e[0], pos: Point::new(4, 5), is_player: false },
    ];
    let cmds = chasing(&map, player, &movers, &positions);
    assert_eq!(cmds, vec![TurnCommand::Attack(WantsToAttack { attacker: e[0], victim: e[1] })]);
}

#[test]
fn chaser_moves_along_path_or_waits() {
    let e = entities(3);
    let map = GameMap::new();
    let player = Point::new(10, 5);
    let movers = vec![
        Chaser { entity: e[0], pos: Point::new(4, 5), sees_player: true, lowest_exit: Some(map_idx(5, 5)) },
        Chaser { entity: e[2], pos: Point::new(20, 5), sees_player: false, lowest_exit: Some(map_idx(19, 5)) },
    ];
    let positions = vec![Occupant { entity: e[1], pos: player, is_player: true }];
    assert_eq!(
        chasing(&map, player, &movers, &positions),
        vec![TurnCommand::Move(WantsToMove { entity: e[0], destination: Point::new(5, 5) })]
    );
    // Another enemy in the way blocks the step without being attacked.
    let blocked = vec![Occupant { entity: e[2], pos: Point::new(5, 5), is_player: false }];
    assert_eq!(step_to(e[0], Point::new(5, 5), &blocked), vec![]);
}

#[test]
fn wanderer_always_asks_to_move() {
    let e = entities(2);
    let positions = vec![Occupant { entity: e[1], pos: Point::new(6, 5), is_player: true }];
    let cmds = wander(e[0], Point::new(5, 5), 1, &positions);
    assert_eq!(
        cmds,
        vec![
            TurnCommand::Attack(WantsToAttack { attacker: e[0], victim: e[1] }),
            TurnCommand::Move(WantsToMove { entity: e[0], destination: Point::new(6, 5) }),
        ]
    );
    let cmds = wander(e[0], Point::new(5, 5), 2, &positions);
    let up = TurnCommand::Move(WantsToMove { entity: e[0], destination: Point::new(5, 4) });
    assert_eq!(cmds, vec![up, up]);
    let all = random_move(&vec![(e[0], Point::new(5, 5))], &vec![]);
    assert_eq!(all.len(), 2);
    assert_eq!(all[0], all[1]);
}

#[test]
fn poison_costs_resistance_first() {
    let h = Health { current: 10, max: 15 };
    let s = Score { current: 0, max: i32::MAX, level_theme: 0, poison_shield: 1, max_poison_shield: 5 };
    let (h1, s1) = poison_step(h, s);
    assert_eq!(h1, h);
    assert_eq!(s1.poison_shield, 0);
    let (h2, s2) = poison_step(h1, s1);
    assert_eq!(h2.current, 9);
    assert_eq!(s2.poison_shield, 0);
    let (h3, _) = poison_step(Health { current: 0, max: 15 }, s2);
    assert_eq!(h3.current, 0);
}

#[test]
fn player_moves_onto_poison_and_reveals_view() {
    let mut map = GameMap::new();
    map.tiles[map_idx(6, 5)] = TileType::PoisonFloor;
    let mut fov = FieldOfView::new(8);
    fov.visible_tiles = vec![Point::new(1, 1), Point::new(2, 3)];
    fov.is_dirty = false;
    let info = MoverInfo {
        exists: true,
        is_player: true,
        fov: Some(fov),
        health: Some(Health { current: 10, max: 15 }),
        score: Some(Score { current: 0, max: 100, level_theme: 0, poison_shield: 0, max_poison_shield: 5 }),
    };
    let o = movement(&mut map, Point::new(6, 5), &info);
    assert_eq!(o.position, Some(Point::new(6, 5)));
    assert!(o.camera_follows);
    assert_eq!(o.health.unwrap().current, 9);
    let f = o.fov.unwrap();
    assert!(f.is_dirty && f.visible_tiles.is_empty() && f.radius == 8);
    assert!(map.revealed_tiles[map_idx(1, 1)]);
    assert!(map.revealed_tiles[map_idx(2, 3)]);
    assert_eq!(map.revealed_tiles.iter().filter(|r| **r).count(), 2);
}

#[test]
fn monster_blocked_by_wall() {
    let mut map = GameMap::new();
    map.tiles[map_idx(6, 5)] = TileType::Wall;
    let info = MoverInfo { exists: true, is_player: false, fov: None, health: None, score: None };
    let o = movement(&mut map, Point::new(6, 5), &info);
    assert_eq!(o.position, None);
    assert!(!o.camera_follows);
    assert!(o.fov.is_none());
}

#[test]
fn items_apply_after_reading() {
    let e = entities(5);
    let mut map = GameMap::new();
    let uses = vec![
        ItemUse { message: e[0], used_by: e[1], item: e[2], item_exists: true, healing: Some(6), reveals_map: false, armor: None, poison_resistance: None },
        ItemUse { message: e[3], used_by: e[1], item: e[4], item_exists: true, healing: None, reveals_map: true, armor: Some(3), poison_resistance: Some(2) },
    ];
    let plan = use_item(&mut map, &uses);
    assert_eq!(plan.healing, vec![(e[1], 6)]);
    assert_eq!(plan.armor, vec![(e[1], 3)]);
    assert_eq!(plan.poison_resistance, vec![(e[1], 2)]);
    assert_eq!(plan.removed, vec![e[2], e[0], e[4], e[3]]);
    assert_eq!(plan.sounds, vec![Sound::MapReveal]);
    assert!(map.revealed_tiles.iter().all(|r| *r));
}

#[test]
fn missing_item_has_no_effect() {
    let e = entities(3);
    let mut map = GameMap::new();
    let uses = vec![ItemUse { message: e[0], used_by: e[1], item: e[2], item_exists: false, healing: Some(6), reveals_map: true, armor: None, poison_resistance: None }];
    let plan = use_item(&mut map, &uses);
    assert!(plan.healing.is_empty());
    assert_eq!(plan.removed, vec![e[2], e[0]]);
    assert!(map.revealed_tiles.iter().all(|r| !*r));
}

#[test]
fn gains_are_capped() {
    assert_eq!(apply_healing(Some(Health { current: 12, max: 15 }), 6), (Some(Health { current: 15, max: 15 }), Some(Sound::Bottle)));
    assert_eq!(apply_healing(Some(Health { current: 2, max: 15 }), 6), (Some(Health { current: 8, max: 15 }), Some(Sound::Bottle)));
    assert_eq!(apply_healing(None, 6), (None, None));
    assert_eq!(apply_armor(Some(Armor { current: 9, max: 10 }), 3), (Some(Armor { current: 10, max: 10 }), Some(Sound::Chainmail)));
    let s = Score { current: 0, max: 100, level_theme: 0, poison_shield: 4, max_poison_shield: 5 };
    assert_eq!(apply_poison_resistance(Some(s), 3).0.unwrap().poison_shield, 5);
    assert_eq!(apply_poison_resistance(None, 3), (None, None));
}

#[test]
fn doors_and_keys() {
    let mut map = GameMap::new();
    map.prefab_indices = vec![map_idx(3, 3)];
    key_handle(&mut map, true, Point::new(0, 0));
    assert!(map.key_carried);
    // Inside a structure the door stays open without the key.
    key_handle(&mut map, false, Point::new(3, 3));
    assert!(map.key_carried);
    key_handle(&mut map, false, Point::new(4, 4));
    assert!(!map.key_carried);
}

#[test]
fn overflow_checks_for_movers() {
    assert!(may_step(Point::new(0, 0)));
    assert!(!may_step(Point::new(i32::MAX, 0)));
    assert!(!may_step(Point::new(0, i32::MIN)));
    assert!(distances_fit(Point::new(5, 5), Point::new(-5, 7)));
    assert!(!distances_fit(Point::new(i32::MAX, 0), Point::new(-1, 0)));
    assert!(!distances_fit(Point::new(i32::MIN, 0), Point::new(0, 0)));
}
