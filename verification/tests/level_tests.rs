use dungeon_crawler::components::{Player, Score};
use dungeon_crawler::geometry::Point;
use dungeon_crawler::map::{index_fits, index_in_map, map_idx, GameMap, TileType};
use dungeon_crawler::components::{distinct_points, FieldOfView, Health};
use dungeon_crawler::systems::end_turn::{arrive, descend, end_turn, entities_left_behind, place_goal, TurnState};
use legion::{Entity, World};

fn entities(n: usize) -> Vec<Entity> {
    let mut w = World::default();
    (0..n).map(|i| w.push((i as u32,))).collect()
}

#[test]
fn going_down_advances_theme_and_level() {
    let s = Score { current: 40, max: i32::MAX, level_theme: 0, poison_shield: 2, max_poison_shield: 5 };
    let (s1, p1, tome) = descend(s, Player { map_level: 0 });
    assert_eq!(s1, Score { level_theme: 1, ..s });
    assert_eq!(p1, Player { map_level: 1 });
    assert!(!tome);
    let (s3, p3, tome) = descend(Score { level_theme: 2, ..s }, Player { map_level: 2 });
    assert_eq!(s3.level_theme, 3);
    assert_eq!(p3.map_level, 3);
    assert!(tome);
    let (_, p4, tome) = descend(s3, p3);
    assert_eq!(p4.map_level, 4);
    assert!(!tome);
}

#[test]
fn only_the_players_own_go_down() {
    let e = entities(5);
    let all = vec![(e[0], true), (e[1], false), (e[2], true), (e[3], false), (e[4], false)];
    assert_eq!(entities_left_behind(&all), vec![e[1], e[3], e[4]]);
    assert_eq!(entities_left_behind(&vec![(e[0], true)]), Vec::<Entity>::new());
    assert_eq!(entities_left_behind(&vec![]), Vec::<Entity>::new());
}

#[test]
fn the_goal_is_the_tome_or_the_exit() {
    let mut m = GameMap::new();
    assert!(place_goal(&mut m, true, Point::new(7, 8)));
    assert!(m.tiles.iter().all(|t| *t == TileType::Floor));
    assert!(!place_goal(&mut m, false, Point::new(7, 8)));
    assert_eq!(m.tiles[map_idx(7, 8)], TileType::Exit);
    assert_eq!(m.tiles.iter().filter(|t| **t == TileType::Exit).count(), 1);
}

#[test]
fn index_checks() {
    assert!(index_fits(Point::new(3, 2)) && index_in_map(Point::new(3, 2)));
    assert!(index_fits(Point::new(-1, 1)) && index_in_map(Point::new(-1, 1)));
    assert!(!index_fits(Point::new(-1, 0)) && !index_in_map(Point::new(-1, 0)));
    assert!(index_fits(Point::new(0, 50)) && !index_in_map(Point::new(0, 50)));
    assert!(!index_fits(Point::new(0, i32::MAX)));
}

#[test]
fn arriving_on_a_new_level() {
    let s = Score { current: 40, max: i32::MAX, level_theme: 1, poison_shield: 2, max_poison_shield: 5 };
    let a = arrive(s, Player { map_level: 1 }, Point::new(40, 25));
    assert_eq!(a.score, Score { level_theme: 2, ..s });
    assert_eq!(a.player, Player { map_level: 2 });
    assert_eq!(a.position, Point::new(40, 25));
    assert!(!a.place_tome);
    assert_eq!(a.turn_state, TurnState::AwaitingInput);
    let mut f = FieldOfView::new(8);
    f.is_dirty = false;
    f.visible_tiles = vec![Point::new(1, 1)];
    f.mark_dirty();
    assert!(f.is_dirty && f.radius == 8 && f.visible_tiles == vec![Point::new(1, 1)]);
}

#[test]
fn views_hold_no_tile_twice() {
    assert!(distinct_points(&vec![]));
    assert!(distinct_points(&vec![Point::new(1, 1), Point::new(1, 2)]));
    assert!(!distinct_points(&vec![Point::new(1, 1), Point::new(1, 2), Point::new(1, 1)]));
}

#[test]
fn awaiting_input_looks_at_no_one() {
    let m = GameMap::new();
    let players = vec![(Health { current: 0, max: 15 }, Point::new(i32::MAX, i32::MAX))];
    let (state, events) = end_turn(TurnState::AwaitingInput, &players, Point::new(-1, -1), &m);
    assert_eq!(state, TurnState::AwaitingInput);
    assert!(events.is_empty());
}
