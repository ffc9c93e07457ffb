use std::collections::HashSet;
use bracket_lib::prelude::RandomNumberGenerator;
use dungeon_crawler::components::{Armor, ChasingPlayer, Damage, Enemy, FieldOfView, Health, Item, Name, Render, ScoreItem, Weapon};
use dungeon_crawler::geometry::Point;
use dungeon_crawler::spawner::template::{provided, spawn_plan, EntityType, Provided, Template, Templates};
use dungeon_crawler::spawner::{player_bundle, spawn_level, spawn_player, spawn_tome_of_anth, tome_bundle};
use legion::systems::CommandBuffer;
use legion::{IntoQuery, World};

fn template(kind: EntityType, levels: &[usize], frequency: i32, provides: Option<Vec<(&str, i32)>>, hp: Option<i32>, dmg: Option<i32>) -> Template {
    Template {
        entity_type: kind,
        levels: levels.iter().copied().collect::<HashSet<usize>>(),
        frequency,
        name: "Thing".to_string(),
        glyph: 'g',
        provides: provides.map(|v| v.into_iter().map(|(s, n)| (s.to_string(), n)).collect()),
        hp,
        base_damage: dmg,
    }
}

#[test]
fn player_starts_fresh() {
    let b = player_bundle(Point::new(4, 2));
    assert_eq!(b.player.map_level, 0);
    assert_eq!(b.pos, Point::new(4, 2));
    assert_eq!(b.render.glyph, 49);
    assert_eq!(b.health, Health { current: 15, max: 15 });
    assert_eq!(b.armor, Armor { current: 10, max: 10 });
    assert_eq!(b.score.current, 0);
    assert_eq!(b.score.max, i32::MAX);
    assert_eq!(b.score.poison_shield, 2);
    assert_eq!(b.score.max_poison_shield, 5);
    assert_eq!(b.fov.radius, 8);
    assert_eq!(b.damage, Damage(1));
    let t = tome_bundle(Point::new(1, 1));
    assert_eq!(t.name.0, "Tome of Anthrophulos");
    assert_eq!(t.render.glyph, 'w' as u16);
}

#[test]
fn spawning_into_world() {
    let mut w = World::default();
    spawn_player(&mut w, Point::new(4, 2));
    spawn_tome_of_anth(&mut w, Point::new(7, 7));
    assert_eq!(w.len(), 2);
}

#[test]
fn provided_names() {
    assert_eq!(provided(&"Healing".to_string(), 6), Some(Provided::Healing(6)));
    assert_eq!(provided(&"MagicMap".to_string(), 0), Some(Provided::MagicMap));
    assert_eq!(provided(&"NVision".to_string(), 1), Some(Provided::NVision(1)));
    assert_eq!(provided(&"Armor".to_string(), 3), Some(Provided::Armor(3)));
    assert_eq!(provided(&"Score".to_string(), 50), Some(Provided::Score(50)));
    assert_eq!(provided(&"Flight".to_string(), 1), None);
}

#[test]
fn plans_follow_templates() {
    let orc = template(EntityType::Enemy, &[0], 1, None, Some(4), Some(2));
    let p = spawn_plan(&orc);
    assert_eq!(p.kind, EntityType::Enemy);
    assert_eq!(p.health, Some(Health { current: 4, max: 4 }));
    assert_eq!(p.damage, Some(2));
    assert!(!p.weapon);
    let sword = template(EntityType::Item, &[1], 1, Some(vec![("Healing", 3), ("Bogus", 1), ("Armor", 2)]), None, Some(3));
    let p = spawn_plan(&sword);
    assert!(p.weapon);
    assert_eq!(p.health, None);
    assert_eq!(p.effects, vec![Provided::Healing(3), Provided::Armor(2)]);
}

#[test]
fn level_draw_repeats_by_frequency() {
    let ts = Templates {
        entities: vec![
            template(EntityType::Enemy, &[0, 1], 2, None, Some(1), None),
            template(EntityType::Item, &[1], 3, None, None, None),
            template(EntityType::Score, &[0], 0, None, None, None),
            template(EntityType::Score, &[0], -2, None, None, None),
        ],
    };
    assert_eq!(ts.available_entities(0), vec![0, 0]);
    assert_eq!(ts.available_entities(1), vec![0, 0, 1, 1, 1]);
    assert_eq!(ts.available_entities(2), Vec::<usize>::new());
}

#[test]
fn populating_a_level() {
    let ts = Templates { entities: vec![template(EntityType::Enemy, &[0], 1, Some(vec![("Score", 5)]), Some(3), Some(1))] };
    let mut w = World::default();
    let mut rng = RandomNumberGenerator::seeded(4);
    let mut cb = CommandBuffer::new(&w);
    spawn_level(&ts, &mut cb, &mut rng, 0, &[Point::new(1, 1), Point::new(2, 2)]);
    cb.flush(&mut w);
    assert_eq!(w.len(), 2);
    let mut cb = CommandBuffer::new(&w);
    spawn_level(&ts, &mut cb, &mut rng, 3, &[Point::new(1, 1)]);
    cb.flush(&mut w);
    assert_eq!(w.len(), 2);
}

#[test]
fn spawned_glyph_comes_from_code_page_437() {
    let mut smiley = template(EntityType::Item, &[0], 1, None, None, None);
    smiley.glyph = '\u{263A}';
    let ts = Templates { entities: vec![smiley] };
    let mut w = World::default();
    let mut rng = RandomNumberGenerator::seeded(1);
    let mut cb = CommandBuffer::new(&w);
    spawn_level(&ts, &mut cb, &mut rng, 0, &[Point::new(3, 3)]);
    cb.flush(&mut w);
    let glyphs: Vec<u16> = <&Render>::query().iter(&w).map(|r| r.glyph).collect();
    assert_eq!(glyphs, vec![1]);
}

#[test]
fn an_enemy_gets_its_components() {
    let goblin = Template {
        entity_type: EntityType::Enemy,
        levels: [0usize].into_iter().collect::<HashSet<usize>>(),
        frequency: 1,
        name: "Goblin".to_string(),
        glyph: 'g',
        provides: None,
        hp: Some(1),
        base_damage: Some(1),
    };
    let ts = Templates { entities: vec![goblin] };
    let mut w = World::default();
    let mut cb = CommandBuffer::new(&w);
    ts.spawn_entity(&Point::new(2, 3), &ts.entities[0], &mut cb);
    cb.flush(&mut w);
    assert_eq!(w.len(), 1);
    let found: Vec<(Point, String, u16, i32, Health, Damage)> = <(&Point, &Name, &Render, &FieldOfView, &Health, &Damage)>::query()
        .filter(legion::component::<Enemy>() & legion::component::<ChasingPlayer>())
        .iter(&w)
        .map(|(p, n, r, f, h, d)| (*p, n.0.clone(), r.glyph, f.radius, *h, *d))
        .collect();
    assert_eq!(found, vec![(Point::new(2, 3), "Goblin".to_string(), 'g' as u16, 6, Health { current: 1, max: 1 }, Damage(1))]);
    assert_eq!(<&Weapon>::query().iter(&w).count(), 0);
    assert_eq!(<&Item>::query().iter(&w).count(), 0);
    assert_eq!(<&ScoreItem>::query().iter(&w).count(), 0);
}

#[test]
fn a_level_uses_only_its_own_templates() {
    let ts = Templates {
        entities: vec![
            template(EntityType::Enemy, &[1], 5, None, Some(2), None),
            template(EntityType::Item, &[0], 1, None, None, None),
        ],
    };
    let mut w = World::default();
    let mut rng = RandomNumberGenerator::seeded(3);
    let mut cb = CommandBuffer::new(&w);
    spawn_level(&ts, &mut cb, &mut rng, 0, &[Point::new(1, 1), Point::new(2, 2), Point::new(3, 3)]);
    cb.flush(&mut w);
    assert_eq!(w.len(), 3);
    assert_eq!(<(&Item, &Point)>::query().iter(&w).count(), 3);
    assert_eq!(<&Enemy>::query().iter(&w).count(), 0);
}
