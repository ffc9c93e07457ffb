use dungeon_crawler::components::{ActivateItem, Score, WantsToAttack, WantsToMove};
use dungeon_crawler::geometry::Point;
use dungeon_crawler::sounds::Sound;
use dungeon_crawler::systems::chasing::TurnCommand;
use dungeon_crawler::systems::player_input::{input_fits_check, player_input, InputView, Key};
use legion::{Entity, World};

fn entities(n: usize) -> Vec<Entity> {
    let mut w = World::default();
    (0..n).map(|i| w.push((i as u32,))).collect()
}

fn view(e: &[Entity]) -> InputView {
    InputView {
        player: e[0],
        player_pos: Point::new(5, 5),
        player_has_fov: true,
        player_score: Some(Score { current: 10, max: i32::MAX, level_theme: 0, poison_shield: 2, max_poison_shield: 5 }),
        fountains: vec![],
        gold: vec![],
        floor_items: vec![],
        player_weapons: vec![],
        player_items: vec![],
        enemies: vec![],
    }
}

#[test]
fn no_key_does_nothing() {
    let e = entities(1);
    let plan = player_input(None, &view(&e));
    assert!(!plan.ends_turn);
    assert!(plan.commands.is_empty() && plan.sounds.is_empty() && plan.activate.is_none());
}

#[test]
fn arrows_move_or_attack() {
    let e = entities(3);
    let mut v = view(&e);
    let plan = player_input(Some(Key::Left), &v);
    assert!(plan.ends_turn);
    assert_eq!(plan.commands, vec![TurnCommand::Move(WantsToMove { entity: e[0], destination: Point::new(4, 5) })]);
    v.enemies = vec![(e[1], Point::new(5, 6)), (e[2], Point::new(9, 9))];
    let plan = player_input(Some(Key::Down), &v);
    assert_eq!(plan.commands, vec![TurnCommand::Attack(WantsToAttack { attacker: e[0], victim: e[1] })]);
    let plan = player_input(Some(Key::Other), &v);
    assert!(plan.ends_turn && plan.commands.is_empty());
}

#[test]
fn pick_up_gold_and_fountain() {
    let e = entities(4);
    let mut v = view(&e);
    v.gold = vec![(e[1], Point::new(5, 5), 30), (e[2], Point::new(1, 1), 99)];
    v.fountains = vec![(e[3], Point::new(5, 5), 1)];
    v.floor_items = vec![(e[3], Point::new(5, 5), false)];
    let plan = player_input(Some(Key::G), &v);
    assert_eq!(plan.take_off_floor, vec![e[3], e[1]]);
    assert!(plan.widen_view);
    assert_eq!(plan.player_score.unwrap().current, 40);
    // With gold picked up, no other item is taken.
    assert!(plan.carry.is_empty());
    assert_eq!(plan.sounds, vec![Sound::Bubble, Sound::Coin]);
    assert!(plan.commands.is_empty());
}

#[test]
fn inventory_holds_four() {
    let e = entities(9);
    let mut v = view(&e);
    v.floor_items = vec![(e[1], Point::new(5, 5), false)];
    v.player_items = vec![e[4], e[5], e[6], e[7]];
    let plan = player_input(Some(Key::G), &v);
    assert!(plan.carry.is_empty() && plan.take_off_floor.is_empty() && plan.sounds.is_empty());
    v.player_items = vec![e[4], e[5], e[6]];
    let plan = player_input(Some(Key::G), &v);
    assert_eq!(plan.carry, vec![e[1]]);
    assert_eq!(plan.take_off_floor, vec![e[1]]);
    assert_eq!(plan.sounds, vec![Sound::ItemPickup]);
}

#[test]
fn a_full_tile_fills_the_inventory_to_four() {
    let e = entities(9);
    let mut v = view(&e);
    v.player_items = vec![e[4], e[5], e[6]];
    v.floor_items = vec![(e[1], Point::new(5, 5), false), (e[2], Point::new(5, 5), false), (e[3], Point::new(5, 5), false)];
    let plan = player_input(Some(Key::G), &v);
    assert_eq!(plan.carry, vec![e[1]]);
    assert_eq!(plan.sounds, vec![Sound::ItemPickup]);
}

#[test]
fn new_weapon_replaces_old() {
    let e = entities(9);
    let mut v = view(&e);
    v.player_items = vec![e[2], e[5], e[6], e[7]];
    v.floor_items = vec![(e[1], Point::new(5, 5), true)];
    v.player_weapons = vec![e[2]];
    let plan = player_input(Some(Key::G), &v);
    assert_eq!(plan.carry, vec![e[1]]);
    assert_eq!(plan.discard, vec![e[2]]);
    assert_eq!(plan.sounds, vec![Sound::SwordUnsheathe]);
    v.player_weapons = vec![];
    let plan = player_input(Some(Key::G), &v);
    assert!(plan.carry.is_empty() && plan.discard.is_empty());
}

#[test]
fn number_keys_use_inventory_slots() {
    let e = entities(3);
    let mut v = view(&e);
    v.player_items = vec![e[1], e[2]];
    assert_eq!(player_input(Some(Key::Key6), &v).activate, Some(ActivateItem { used_by: e[0], item: e[1] }));
    assert_eq!(player_input(Some(Key::Key7), &v).activate, Some(ActivateItem { used_by: e[0], item: e[2] }));
    assert_eq!(player_input(Some(Key::Key8), &v).activate, None);
    assert_eq!(player_input(Some(Key::Key9), &v).activate, None);
}

#[test]
fn overflowing_gold_is_recognised() {
    let e = entities(3);
    let mut v = view(&e);
    assert!(input_fits_check(Some(Key::G), &v));
    v.gold = vec![(e[1], Point::new(5, 5), i32::MAX), (e[2], Point::new(5, 5), 1)];
    assert!(!input_fits_check(Some(Key::G), &v));
    // Only G adds up the gold.
    assert!(input_fits_check(Some(Key::Left), &v));
    assert!(input_fits_check(None, &v));
    v.gold = vec![(e[1], Point::new(5, 5), i32::MAX), (e[2], Point::new(6, 5), 1)];
    assert!(!input_fits_check(Some(Key::G), &v));
    v.player_score = None;
    assert!(input_fits_check(Some(Key::G), &v));
}

#[test]
fn only_the_step_taken_must_fit() {
    let e = entities(3);
    let mut v = view(&e);
    v.player_pos = Point::new(i32::MAX, 5);
    assert!(!input_fits_check(Some(Key::Right), &v));
    assert!(input_fits_check(Some(Key::Left), &v));
    assert!(input_fits_check(Some(Key::Up), &v));
    assert!(input_fits_check(Some(Key::G), &v));
    assert!(input_fits_check(Some(Key::Other), &v));
    assert!(input_fits_check(None, &v));
    let plan = player_input(None, &v);
    assert!(!plan.ends_turn && plan.commands.is_empty());
    let plan = player_input(Some(Key::Left), &v);
    assert_eq!(plan.commands.len(), 1);
}
