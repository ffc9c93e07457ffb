use bracket_lib::prelude::RandomNumberGenerator;
use dungeon_crawler::components::{Armor, Health, Score};
use dungeon_crawler::sounds::Sound;
use dungeon_crawler::systems::combat::{attack_fits_check, okulos_cry, resolve_attack, AttackInfo, EnemyKind};

fn player_score() -> Score {
    Score { current: 250, max: i32::MAX, level_theme: 0, poison_shield: 2, max_poison_shield: 5 }
}

fn on_player(base: i32, weapons: Vec<i32>, armor: i32) -> AttackInfo {
    AttackInfo {
        victim_is_player: true,
        base_damage: base,
        weapon_damage: weapons,
        steals_score: None,
        ignores_armor: false,
        reduces_fov: false,
        victim_armor: Some(Armor { current: armor, max: 10 }),
        victim_health: Some(Health { current: 15, max: 15 }),
        victim_score: Some(player_score()),
        victim_fov_radius: Some(8),
        victim_provides_score: None,
        player_score: Some(player_score()),
        victim_kind: EnemyKind::Plain,
    }
}

#[test]
fn armor_absorbs_all_of_small_hits() {
    let mut rng = RandomNumberGenerator::seeded(1);
    let o = resolve_attack(&mut rng, &on_player(2, vec![1], 10));
    assert_eq!(o.victim_armor, Some(Armor { current: 7, max: 10 }));
    assert_eq!(o.victim_health, Some(Health { current: 15, max: 15 }));
    assert!(o.sounds.is_empty());
    assert!(!o.slain);
}

#[test]
fn exact_hit_breaks_armor_without_wound() {
    let mut rng = RandomNumberGenerator::seeded(1);
    let o = resolve_attack(&mut rng, &on_player(4, vec![], 4));
    assert_eq!(o.victim_armor, Some(Armor { current: 0, max: 10 }));
    assert_eq!(o.victim_health, Some(Health { current: 15, max: 15 }));
}

#[test]
fn excess_damage_passes_to_health() {
    let mut rng = RandomNumberGenerator::seeded(1);
    let o = resolve_attack(&mut rng, &on_player(7, vec![2, 3], 4));
    assert_eq!(o.victim_armor, Some(Armor { current: 0, max: 10 }));
    assert_eq!(o.victim_health, Some(Health { current: 7, max: 15 }));
    assert_eq!(o.sounds, vec![Sound::Stab]);
}

#[test]
fn low_health_warns() {
    let mut rng = RandomNumberGenerator::seeded(1);
    let o = resolve_attack(&mut rng, &on_player(10, vec![], 0));
    assert_eq!(o.victim_health, Some(Health { current: 5, max: 15 }));
    assert_eq!(o.sounds, vec![Sound::Stab, Sound::ScaredBreath]);
}

#[test]
fn armor_ignoring_attacker() {
    let mut rng = RandomNumberGenerator::seeded(1);
    let mut info = on_player(3, vec![], 10);
    info.ignores_armor = true;
    let o = resolve_attack(&mut rng, &info);
    assert_eq!(o.victim_armor, Some(Armor { current: 10, max: 10 }));
    assert_eq!(o.victim_health, Some(Health { current: 12, max: 15 }));
}

#[test]
fn absorbed_hit_after_armor_ignoring_hit_costs_no_health() {
    let mut rng = RandomNumberGenerator::seeded(1);
    let mut first = on_player(3, vec![], 10);
    first.ignores_armor = true;
    let o1 = resolve_attack(&mut rng, &first);
    assert_eq!(o1.victim_health, Some(Health { current: 12, max: 15 }));
    let mut second = on_player(2, vec![], 10);
    second.victim_health = o1.victim_health;
    second.victim_armor = o1.victim_armor;
    let o2 = resolve_attack(&mut rng, &second);
    assert_eq!(o2.victim_armor, Some(Armor { current: 8, max: 10 }));
    assert_eq!(o2.victim_health, Some(Health { current: 12, max: 15 }));
}

#[test]
fn stealing_never_below_zero() {
    let mut rng = RandomNumberGenerator::seeded(1);
    let mut info = on_player(2, vec![], 0);
    info.steals_score = Some(1000);
    let o = resolve_attack(&mut rng, &info);
    assert_eq!(o.victim_score.unwrap().current, 0);
    assert_eq!(o.sounds, vec![Sound::Stab, Sound::ScoreSteal]);
}

#[test]
fn view_narrows_only_above_five() {
    let mut rng = RandomNumberGenerator::seeded(1);
    let mut info = on_player(1, vec![], 0);
    info.reduces_fov = true;
    let o = resolve_attack(&mut rng, &info);
    assert!(o.reduce_fov);
    assert_eq!(o.sounds, vec![Sound::Stab, Sound::FovDown]);
    info.victim_fov_radius = Some(5);
    let o = resolve_attack(&mut rng, &info);
    assert!(!o.reduce_fov);
}

fn on_enemy(kind: EnemyKind, hp: i32, yields: Option<i32>) -> AttackInfo {
    AttackInfo {
        victim_is_player: false,
        base_damage: 1,
        weapon_damage: vec![3],
        steals_score: None,
        ignores_armor: false,
        reduces_fov: false,
        victim_armor: None,
        victim_health: Some(Health { current: hp, max: hp }),
        victim_score: None,
        victim_fov_radius: Some(6),
        victim_provides_score: yields,
        player_score: Some(Score { current: 90, max: 100, level_theme: 0, poison_shield: 2, max_poison_shield: 5 }),
        victim_kind: kind,
    }
}

#[test]
fn enemy_survives() {
    let mut rng = RandomNumberGenerator::seeded(1);
    let o = resolve_attack(&mut rng, &on_enemy(EnemyKind::Plain, 9, Some(5)));
    assert_eq!(o.victim_health, Some(Health { current: 5, max: 9 }));
    assert!(!o.slain);
    assert_eq!(o.player_score.unwrap().current, 90);
}

#[test]
fn slain_enemy_credits_score_up_to_max() {
    let mut rng = RandomNumberGenerator::seeded(1);
    let o = resolve_attack(&mut rng, &on_enemy(EnemyKind::ViewNarrowing, 4, Some(25)));
    assert!(o.slain);
    assert_eq!(o.victim_health, Some(Health { current: 0, max: 4 }));
    assert_eq!(o.player_score.unwrap().current, 100);
    assert_eq!(o.sounds, vec![Sound::WraithDeath]);
    let o = resolve_attack(&mut rng, &on_enemy(EnemyKind::ArmorIgnoring, 2, None));
    assert_eq!(o.sounds, vec![Sound::AngelDeath]);
    assert_eq!(o.player_score.unwrap().current, 90);
}

#[test]
fn all_seeing_cries_one_of_two() {
    let mut rng = RandomNumberGenerator::seeded(7);
    let o = resolve_attack(&mut rng, &on_enemy(EnemyKind::AllSeeing, 1, None));
    assert!(o.sounds == vec![Sound::OkulosDeath1] || o.sounds == vec![Sound::OkulosDeath2]);
    assert_eq!(okulos_cry(0), Sound::OkulosDeath1);
    assert_eq!(okulos_cry(1), Sound::OkulosDeath2);
}

#[test]
fn victim_without_health() {
    let mut rng = RandomNumberGenerator::seeded(1);
    let mut info = on_enemy(EnemyKind::Plain, 1, None);
    info.victim_health = None;
    let o = resolve_attack(&mut rng, &info);
    assert_eq!(o.victim_health, None);
    assert!(!o.slain);
}

#[test]
fn overflowing_attacks_are_recognised() {
    assert!(attack_fits_check(&on_player(2, vec![1, 3], 10)));
    assert!(!attack_fits_check(&on_player(2, vec![i32::MAX, 1], 10)));
    assert!(!attack_fits_check(&on_player(i32::MAX, vec![1], 10)));
    assert!(attack_fits_check(&on_player(i32::MAX, vec![], 10)));
    let mut stolen = on_player(2, vec![], 0);
    stolen.steals_score = Some(i32::MAX);
    stolen.victim_score = Some(Score { current: -2, ..player_score() });
    assert!(!attack_fits_check(&stolen));
    let mut survivor = on_player(2, vec![], 0);
    survivor.victim_is_player = false;
    survivor.victim_provides_score = Some(i32::MAX);
    // The victim survives, so no score is credited and nothing overflows.
    assert!(attack_fits_check(&survivor));
    let mut slain = survivor;
    slain.victim_health = Some(Health { current: 1, max: 15 });
    assert!(!attack_fits_check(&slain));
    let mut frail = on_player(5, vec![], 1);
    frail.victim_health = Some(Health { current: i32::MIN + 2, max: 15 });
    assert!(!attack_fits_check(&frail));
}

#[test]
fn guards_only_the_steps_taken() {
    let mut rng = RandomNumberGenerator::seeded(1);
    // An absorbed hit takes nothing from health, however low it is.
    let mut absorbed = on_player(5, vec![], 10);
    absorbed.victim_health = Some(Health { current: i32::MIN + 1, max: 15 });
    assert!(attack_fits_check(&absorbed));
    let o = resolve_attack(&mut rng, &absorbed);
    assert_eq!(o.victim_health, Some(Health { current: i32::MIN + 1, max: 15 }));
    assert_eq!(o.victim_armor, Some(Armor { current: 5, max: 10 }));
    // Nothing is stolen when the armor absorbs the hit.
    let mut kept = on_player(5, vec![], 10);
    kept.steals_score = Some(5);
    kept.victim_score = Some(Score { current: i32::MIN + 1, ..player_score() });
    assert!(attack_fits_check(&kept));
    let o = resolve_attack(&mut rng, &kept);
    assert_eq!(o.victim_score.unwrap().current, i32::MIN + 1);
    // Against an armor-ignoring attacker the armor is never subtracted.
    let mut ignored = on_player(i32::MIN, vec![], 5);
    ignored.ignores_armor = true;
    ignored.victim_health = Some(Health { current: -5, max: 15 });
    assert!(attack_fits_check(&ignored));
}
