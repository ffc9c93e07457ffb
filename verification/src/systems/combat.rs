//! Resolution of attacks.
//!
//! One run of the combat system resolves the attack requests one after the
//! other. Each attack decides afresh whether the victim's health is hit, and
//! by how much ([`HealthHit`]): the player's health drops only when it has no
//! armor left, when the armor breaks, or when the attacker ignores armor.

use vstd::prelude::*;
use bracket_lib::prelude::RandomNumberGenerator;
use crate::bracket::rng_range;
use crate::components::{Armor, Health, Score, HEALTH_WARN_THRESHOLD};
use crate::sounds::Sound;

verus! {

/// Whether an attack reaches the victim's health, and by how much.
#[derive(Clone, Copy, Debug, PartialEq, Eq, Structural)]
pub struct HealthHit {
    pub take_health: bool,
    pub health_damage: i32,
}

/// Which death cry a slain enemy utters, by the kind of enemy.
#[derive(Clone, Copy, Debug, PartialEq, Eq, Structural)]
pub enum EnemyKind {
    /// Narrows the view of those it hits.
    ViewNarrowing,
    /// Sees everything.
    AllSeeing,
    /// Ignores armor.
    ArmorIgnoring,
    /// Any other enemy.
    Plain,
}

/// What the combat system reads of the world for one attack request.
pub struct AttackInfo {
    pub victim_is_player: bool,
    /// The attacker's own damage (0 where it has none).
    pub base_damage: i32,
    /// The damage of each item that the attacker carries.
    pub weapon_damage: Vec<i32>,
    /// How much the attacker steals from the score, where it steals.
    pub steals_score: Option<i32>,
    pub ignores_armor: bool,
    pub reduces_fov: bool,
    pub victim_armor: Option<Armor>,
    pub victim_health: Option<Health>,
    pub victim_score: Option<Score>,
    /// The radius of the victim's field of view, where it has one.
    pub victim_fov_radius: Option<i32>,
    /// The score that slaying the victim yields, where it yields one.
    pub victim_provides_score: Option<i32>,
    /// The player's score (credited when an enemy is slain).
    pub player_score: Option<Score>,
    pub victim_kind: EnemyKind,
}

/// The changes that one attack makes.
pub struct AttackOutcome {
    /// The victim's armor afterwards.
    pub victim_armor: Option<Armor>,
    /// The victim's health afterwards.
    pub victim_health: Option<Health>,
    /// The victim's score afterwards.
    pub victim_score: Option<Score>,
    /// Whether the victim's view narrows (`FieldOfView::dec_fov`).
    pub reduce_fov: bool,
    /// The player's score afterwards.
    pub player_score: Option<Score>,
    /// Whether the victim is slain and removed.
    pub slain: bool,
    pub sounds: Vec<Sound>,
}

/// Sum of the damage of the carried items.
pub open spec fn weapon_sum(w: Seq<i32>) -> int
    decreases w.len(),
{
    if w.len() == 0 {
        0
    } else {
        weapon_sum(w.drop_last()) + w.last()
    }
}

/// The damage of an attack: the attacker's own plus that of its items.
pub open spec fn final_damage(info: AttackInfo) -> int {
    info.base_damage + weapon_sum(info.weapon_damage@)
}

/// Whether every intermediate sum of the item damages fits an `i32`.
pub open spec fn weapon_sums_fit(w: Seq<i32>) -> bool {
    forall|k: int| 0 <= k <= w.len() ==> i32::MIN <= #[trigger] weapon_sum(w.take(k)) <= i32::MAX
}

/// An attack that does not reach health.
pub open spec fn no_hit() -> HealthHit {
    HealthHit { take_health: false, health_damage: 0 }
}

/// The armor phase: whether and how hard health is hit, and the victim's armor after it.
pub open spec fn armor_phase(info: AttackInfo) -> (HealthHit, Option<Armor>) {
    let f = final_damage(info);
    match info.victim_armor {
        None => (no_hit(), None),
        Some(a) => if info.ignores_armor {
            (HealthHit { take_health: true, health_damage: f as i32 }, Some(a))
        } else if a.current > 0 {
            let nd = f - a.current;
            if nd < 0 {
                (no_hit(), Some(Armor { current: (-nd) as i32, max: a.max }))
            } else if nd == 0 {
                (no_hit(), Some(Armor { current: 0, max: a.max }))
            } else {
                (
                    HealthHit { take_health: true, health_damage: nd as i32 },
                    Some(Armor { current: 0, max: a.max }),
                )
            }
        } else {
            (HealthHit { take_health: true, health_damage: f as i32 }, Some(a))
        },
    }
}

/// Whether the player is hit in the health phase.
pub open spec fn player_hit(info: AttackInfo) -> bool {
    info.victim_health is Some && info.victim_is_player && armor_phase(info).0.take_health
}

/// The victim's health after the attack.
pub open spec fn health_after(info: AttackInfo) -> Option<Health> {
    match info.victim_health {
        None => None,
        Some(h) => if info.victim_is_player {
            if armor_phase(info).0.take_health {
                Some(Health { current: (h.current - armor_phase(info).0.health_damage) as i32, max: h.max })
            } else {
                Some(h)
            }
        } else {
            Some(Health { current: (h.current - final_damage(info)) as i32, max: h.max })
        },
    }
}

/// Whether the hit player also loses score.
pub open spec fn steals(info: AttackInfo) -> bool {
    player_hit(info) && info.steals_score is Some && info.victim_score is Some
}

/// The victim's score after the attack.
pub open spec fn victim_score_after(info: AttackInfo) -> Option<Score> {
    if steals(info) {
        let s = info.victim_score->0;
        let left = s.current - info.steals_score->0;
        Some(Score { current: if left > 0 { left as i32 } else { 0 }, ..s })
    } else {
        info.victim_score
    }
}

/// Whether the hit player's view narrows: only while its radius exceeds 5.
pub open spec fn narrows(info: AttackInfo) -> bool {
    &&& player_hit(info)
    &&& info.reduces_fov
    &&& info.victim_fov_radius matches Some(r) && r > 5
}

/// Whether the victim, an enemy, is slain.
pub open spec fn slain(info: AttackInfo) -> bool {
    &&& !info.victim_is_player
    &&& health_after(info) matches Some(h) && h.current < 1
}

/// The player's score after the attack: a slain enemy that yields score adds
/// it, up to the score's maximum.
pub open spec fn player_score_after(info: AttackInfo) -> Option<Score> {
    if slain(info) && info.victim_provides_score is Some && info.player_score is Some {
        let s = info.player_score->0;
        let sum = s.current + info.victim_provides_score->0;
        Some(Score { current: if s.max < sum { s.max } else { sum as i32 }, ..s })
    } else {
        info.player_score
    }
}

/// The cry of a slain all-seeing enemy, by a roll of 0 or 1.
pub open spec fn okulos_cry_spec(roll: i32) -> Sound {
    if roll == 0 { Sound::OkulosDeath1 } else { Sound::OkulosDeath2 }
}

/// The sounds of an attack; `roll` picks the cry of a slain all-seeing enemy.
pub open spec fn attack_sounds(info: AttackInfo, roll: i32) -> Seq<Sound> {
    let hit = if player_hit(info) {
        seq![Sound::Stab] + (if health_after(info)->0.current <= HEALTH_WARN_THRESHOLD {
            seq![Sound::ScaredBreath]
        } else {
            Seq::empty()
        }) + (if steals(info) { seq![Sound::ScoreSteal] } else { Seq::empty() }) + (if narrows(info) {
            seq![Sound::FovDown]
        } else {
            Seq::empty()
        })
    } else {
        Seq::empty()
    };
    let cry = if slain(info) {
        match info.victim_kind {
            EnemyKind::ViewNarrowing => seq![Sound::WraithDeath],
            EnemyKind::AllSeeing => seq![okulos_cry_spec(roll)],
            EnemyKind::ArmorIgnoring => seq![Sound::AngelDeath],
            EnemyKind::Plain => Seq::empty(),
        }
    } else {
        Seq::empty()
    };
    hit + cry
}

/// Whether no step of the attack overflows an `i32`, step by step as the
/// attack takes them: the damage is always added up; the armor is
/// subtracted from it only against intact armor that the attacker does not
/// ignore; the damage is taken from the player's health only on a hit that
/// reaches health, and from an enemy's health always; score is stolen only
/// on such a hit, and credited only for a slain enemy.
pub open spec fn attack_fits(info: AttackInfo) -> bool {
    let f = final_damage(info);
    &&& weapon_sums_fit(info.weapon_damage@)
    &&& i32::MIN <= f <= i32::MAX
    &&& (info.victim_armor matches Some(a) ==> (!info.ignores_armor && a.current > 0 ==> i32::MIN < f - a.current
        <= i32::MAX))
    &&& (info.victim_health matches Some(h) ==> {
        &&& !info.victim_is_player ==> i32::MIN <= h.current - f <= i32::MAX
        &&& info.victim_is_player && armor_phase(info).0.take_health ==> i32::MIN <= h.current - armor_phase(
            info,
        ).0.health_damage <= i32::MAX
    })
    &&& (steals(info) ==> i32::MIN <= info.victim_score->0.current - info.steals_score->0 <= i32::MAX)
    &&& (slain(info) && info.victim_provides_score is Some && info.player_score is Some ==> i32::MIN
        <= info.player_score->0.current + info.victim_provides_score->0 <= i32::MAX)
}

/// Whether an attack can be resolved without overflow: [`attack_fits`],
/// computed. A caller tests it before [`resolve_attack`].
pub fn attack_fits_check(info: &AttackInfo) -> (b: bool)
    ensures
        b == attack_fits(*info),
{
    let ghost w = info.weapon_damage@;
    let mut sum: i64 = 0;
    let mut i: usize = 0;
    while i < info.weapon_damage.len()
        invariant
            w == info.weapon_damage@,
            i <= w.len(),
            sum == weapon_sum(w.take(i as int)),
            forall|k: int| 0 <= k <= i ==> i32::MIN <= #[trigger] weapon_sum(w.take(k)) <= i32::MAX,
        decreases w.len() - i,
    {
        proof {
            assert(w.take(i + 1).drop_last() =~= w.take(i as int));
            assert(w.take(i + 1).last() == w[i as int]);
        }
        let next: i64 = sum + info.weapon_damage[i] as i64;
        if next < i32::MIN as i64 || next > i32::MAX as i64 {
            assert(weapon_sum(w.take(i + 1)) == next);
            return false;
        }
        sum = next;
        i += 1;
    }
    proof {
        assert(w.take(w.len() as int) =~= w);
    }
    let f: i64 = info.base_damage as i64 + sum;
    if f < i32::MIN as i64 || f > i32::MAX as i64 {
        return false;
    }
    let mut take_health = false;
    let mut health_damage: i64 = 0;
    if let Some(a) = info.victim_armor {
        if info.ignores_armor {
            take_health = true;
            health_damage = f;
        } else if a.current > 0 {
            let d: i64 = f - a.current as i64;
            if d <= i32::MIN as i64 || d > i32::MAX as i64 {
                return false;
            }
            if d > 0 {
                take_health = true;
                health_damage = d;
            }
        } else {
            take_health = true;
            health_damage = f;
        }
    }
    assert(take_health == armor_phase(*info).0.take_health);
    assert(take_health ==> health_damage == armor_phase(*info).0.health_damage);
    let mut hit = false;
    let mut killed = false;
    if let Some(h) = info.victim_health {
        if info.victim_is_player {
            if take_health {
                let left: i64 = h.current as i64 - health_damage;
                if left < i32::MIN as i64 || left > i32::MAX as i64 {
                    return false;
                }
                hit = true;
            }
        } else {
            let left: i64 = h.current as i64 - f;
            if left < i32::MIN as i64 || left > i32::MAX as i64 {
                return false;
            }
            killed = left < 1;
        }
    }
    assert(hit == player_hit(*info));
    assert(killed == slain(*info));
    if hit {
        if let Some(a) = info.steals_score {
            if let Some(s) = info.victim_score {
                let left: i64 = s.current as i64 - a as i64;
                if left < i32::MIN as i64 || left > i32::MAX as i64 {
                    return false;
                }
            }
        }
    }
    if killed {
        if let Some(a) = info.victim_provides_score {
            if let Some(s) = info.player_score {
                let total: i64 = s.current as i64 + a as i64;
                if total < i32::MIN as i64 || total > i32::MAX as i64 {
                    return false;
                }
            }
        }
    }
    true
}

/// The cry of a slain all-seeing enemy: the first for a roll of 0, else the second.
pub fn okulos_cry(roll: i32) -> (s: Sound)
    ensures
        s == okulos_cry_spec(roll),
{
    if roll == 0 {
        Sound::OkulosDeath1
    } else {
        Sound::OkulosDeath2
    }
}

/// Total damage of the carried items.
fn sum_weapons(w: &Vec<i32>) -> (s: i32)
    requires
        weapon_sums_fit(w@),
    ensures
        s == weapon_sum(w@),
{
    let mut s: i32 = 0;
    let mut i: usize = 0;
    while i < w.len()
        invariant
            i <= w.len(),
            weapon_sums_fit(w@),
            s == weapon_sum(w@.take(i as int)),
        decreases w.len() - i,
    {
        proof {
            assert(w@.take(i + 1).drop_last() =~= w@.take(i as int));
            assert(i32::MIN <= weapon_sum(w@.take(i + 1)) <= i32::MAX);
        }
        s = s + w[i];
        i += 1;
    }
    proof {
        assert(w@.take(w.len() as int) =~= w@);
    }
    s
}

/// Resolves one attack request. The damage is the attacker's own plus that
/// of its items. Armor absorbs damage first, unless the attacker ignores it:
/// what armor cannot absorb (or all of it, when the armor is broken or
/// ignored) is remembered as damage to health. A hit player loses that much
/// health, hears a stab (and a warning at low health), loses score to a
/// stealing attacker (never below 0), and has its view narrowed by a
/// view-narrowing attacker while its radius exceeds 5. An enemy victim loses
/// the whole damage; when its health drops below 1 it is slain, credits its
/// score to the player (up to the maximum) and utters its death cry, for
/// which an all-seeing enemy rolls one of two.
pub fn resolve_attack(rng: &mut RandomNumberGenerator, info: &AttackInfo) -> (o: AttackOutcome)
    requires
        attack_fits(*info),
    ensures
        o.victim_armor == armor_phase(*info).1,
        o.victim_health == health_after(*info),
        o.victim_score == victim_score_after(*info),
        o.reduce_fov == narrows(*info),
        o.player_score == player_score_after(*info),
        o.slain == slain(*info),
        exists|roll: i32| 0 <= roll < 2 && o.sounds@ == attack_sounds(*info, roll),
{
    let weapons = sum_weapons(&info.weapon_damage);
    let final_dmg: i32 = info.base_damage + weapons;
    let mut take_health = false;
    let mut health_damage: i32 = 0;
    let mut armor = info.victim_armor;
    if let Some(a) = info.victim_armor {
        if info.ignores_armor {
            take_health = true;
            health_damage = final_dmg;
        } else {
            if a.current > 0 {
                assert(i32::MIN < final_damage(*info) - a.current);
                let new_damage = final_dmg - a.current;
                if new_damage < 0 {
                    armor = Some(Armor { current: -new_damage, max: a.max });
                } else if new_damage == 0 {
                    armor = Some(Armor { current: 0, max: a.max });
                } else {
                    take_health = true;
                    armor = Some(Armor { current: 0, max: a.max });
                    health_damage = new_damage;
                }
            } else {
                take_health = true;
                health_damage = final_dmg;
            }
        }
    }
    let mut sounds: Vec<Sound> = Vec::new();
    let mut health = info.victim_health;
    let mut victim_score = info.victim_score;
    let mut reduce_fov = false;
    let mut player_score = info.player_score;
    let mut is_slain = false;
    let ghost mut roll: i32 = 0;
    if let Some(h) = info.victim_health {
        let mut current = h.current;
        if info.victim_is_player && take_health {
            current = current - health_damage;
            sounds.push(Sound::Stab);
            if current <= HEALTH_WARN_THRESHOLD {
                sounds.push(Sound::ScaredBreath);
            }
            if let Some(amount) = info.steals_score {
                if let Some(s) = info.victim_score {
                    let left = s.current - amount;
                    let kept = if left > 0 { left } else { 0 };
                    victim_score = Some(Score { current: kept, ..s });
                    sounds.push(Sound::ScoreSteal);
                }
            }
            if info.reduces_fov {
                if let Some(r) = info.victim_fov_radius {
                    if r > 5 {
                        reduce_fov = true;
                        sounds.push(Sound::FovDown);
                    }
                }
            }
        } else if !info.victim_is_player {
            current = current - final_dmg;
        }
        health = Some(Health { current, max: h.max });
        if current < 1 && !info.victim_is_player {
            if let Some(amount) = info.victim_provides_score {
                if let Some(ps) = info.player_score {
                    let sum = ps.current + amount;
                    let credited = if ps.max < sum { ps.max } else { sum };
                    player_score = Some(Score { current: credited, ..ps });
                }
            }
            match info.victim_kind {
                EnemyKind::ViewNarrowing => sounds.push(Sound::WraithDeath),
                EnemyKind::AllSeeing => {
                    let r = rng_range(rng, 0, 2);
                    proof {
                        roll = r;
                    }
                    sounds.push(okulos_cry(r));
                },
                EnemyKind::ArmorIgnoring => sounds.push(Sound::AngelDeath),
                EnemyKind::Plain => {},
            }
            is_slain = true;
        }
    }
    proof {
        assert(0 <= roll < 2);
        assert(sounds@ =~= attack_sounds(*info, roll));
    }
    AttackOutcome {
        victim_armor: armor,
        victim_health: health,
        victim_score,
        reduce_fov,
        player_score,
        slain: is_slain,
        sounds,
    }
}

} // verus!
