//! Using carried items.

use vstd::prelude::*;
use legion::Entity;
use crate::components::{Armor, Health, Score};
use crate::geometry::NUM_TILES;
use crate::map::GameMap;
use crate::sounds::Sound;

verus! {

/// What the item system reads of the world for one use request.
#[derive(Clone, Copy, Debug, PartialEq)]
pub struct ItemUse {
    /// The request itself (an entity of its own).
    pub message: Entity,
    pub used_by: Entity,
    pub item: Entity,
    /// Whether the item still exists; a missing item has no effect.
    pub item_exists: bool,
    pub healing: Option<i32>,
    pub reveals_map: bool,
    pub armor: Option<i32>,
    pub poison_resistance: Option<i32>,
}

/// The effects of a run of the item system, applied after all requests are read.
pub struct UsePlan {
    /// Healing to give, to whom, in order.
    pub healing: Vec<(Entity, i32)>,
    /// Armor to give, to whom, in order.
    pub armor: Vec<(Entity, i32)>,
    /// Poison resistance to give, to whom, in order.
    pub poison_resistance: Vec<(Entity, i32)>,
    /// Entities to remove: each used item and each request.
    pub removed: Vec<Entity>,
    pub sounds: Vec<Sound>,
}

/// The effects of a sequence of use requests, as the five lists of a [`UsePlan`].
pub open spec fn use_effects(uses: Seq<ItemUse>) -> (Seq<(Entity, i32)>, Seq<(Entity, i32)>, Seq<(Entity, i32)>, Seq<Entity>, Seq<Sound>)
    decreases uses.len(),
{
    if uses.len() == 0 {
        (Seq::empty(), Seq::empty(), Seq::empty(), Seq::empty(), Seq::empty())
    } else {
        let (h, a, p, r, s) = use_effects(uses.drop_last());
        let u = uses.last();
        if u.item_exists {
            (
                h + (if u.healing is Some { seq![(u.used_by, u.healing->0)] } else { Seq::empty() }),
                a + (if u.armor is Some { seq![(u.used_by, u.armor->0)] } else { Seq::empty() }),
                p + (if u.poison_resistance is Some { seq![(u.used_by, u.poison_resistance->0)] } else { Seq::empty() }),
                r + seq![u.item, u.message],
                s + (if u.reveals_map { seq![Sound::MapReveal] } else { Seq::empty() }),
            )
        } else {
            (h, a, p, r + seq![u.item, u.message], s)
        }
    }
}

/// Whether some existing item of the requests reveals the map.
pub open spec fn any_reveals(uses: Seq<ItemUse>) -> bool {
    exists|i: int| 0 <= i < uses.len() && uses[i].item_exists && uses[i].reveals_map
}

/// Marks every tile of the map as revealed.
pub fn reveal_all(map: &mut GameMap)
    requires
        old(map).wf(),
    ensures
        final(map).wf(),
        final(map).tiles == old(map).tiles,
        final(map).key_carried == old(map).key_carried,
        final(map).spawned_points == old(map).spawned_points,
        final(map).prefab_indices == old(map).prefab_indices,
        forall|i: int| 0 <= i < NUM_TILES ==> #[trigger] final(map).revealed_tiles@[i],
{
    let mut i: usize = 0;
    while i < map.revealed_tiles.len()
        invariant
            i <= map.revealed_tiles.len(),
            map.wf(),
            map.tiles == old(map).tiles,
            map.key_carried == old(map).key_carried,
            map.spawned_points == old(map).spawned_points,
            map.prefab_indices == old(map).prefab_indices,
            forall|k: int| 0 <= k < i ==> #[trigger] map.revealed_tiles@[k],
        decreases map.revealed_tiles.len() - i,
    {
        map.revealed_tiles.set(i, true);
        i += 1;
    }
}

/// The item system: each existing item used contributes its healing, armor
/// and poison resistance to the one who uses it, and a map item reveals the
/// whole map; every used item and every request is removed.
pub fn use_item(map: &mut GameMap, uses: &Vec<ItemUse>) -> (plan: UsePlan)
    requires
        old(map).wf(),
    ensures
        final(map).wf(),
        final(map).tiles == old(map).tiles,
        final(map).key_carried == old(map).key_carried,
        final(map).spawned_points == old(map).spawned_points,
        final(map).prefab_indices == old(map).prefab_indices,
        any_reveals(uses@) ==> forall|i: int| 0 <= i < NUM_TILES ==> #[trigger] final(map).revealed_tiles@[i],
        !any_reveals(uses@) ==> final(map).revealed_tiles == old(map).revealed_tiles,
        (plan.healing@, plan.armor@, plan.poison_resistance@, plan.removed@, plan.sounds@) == use_effects(uses@),
{
    let mut healing: Vec<(Entity, i32)> = Vec::new();
    let mut armor: Vec<(Entity, i32)> = Vec::new();
    let mut poison_resistance: Vec<(Entity, i32)> = Vec::new();
    let mut removed: Vec<Entity> = Vec::new();
    let mut sounds: Vec<Sound> = Vec::new();
    let mut i: usize = 0;
    while i < uses.len()
        invariant
            i <= uses.len(),
            map.wf(),
            map.tiles == old(map).tiles,
            map.key_carried == old(map).key_carried,
            map.spawned_points == old(map).spawned_points,
            map.prefab_indices == old(map).prefab_indices,
            any_reveals(uses@.take(i as int)) ==> forall|k: int| 0 <= k < NUM_TILES ==> #[trigger] map.revealed_tiles@[k],
            !any_reveals(uses@.take(i as int)) ==> map.revealed_tiles == old(map).revealed_tiles,
            (healing@, armor@, poison_resistance@, removed@, sounds@) == use_effects(uses@.take(i as int)),
        decreases uses.len() - i,
    {
        proof {
            assert(uses@.take(i + 1).drop_last() =~= uses@.take(i as int));
        }
        let u = uses[i];
        let ghost before = uses@.take(i as int);
        if u.item_exists {
            if let Some(amount) = u.healing {
                healing.push((u.used_by, amount));
            }
            if u.reveals_map {
                reveal_all(map);
                sounds.push(Sound::MapReveal);
            }
            if let Some(amount) = u.armor {
                armor.push((u.used_by, amount));
            }
            if let Some(amount) = u.poison_resistance {
                poison_resistance.push((u.used_by, amount));
            }
        }
        removed.push(u.item);
        removed.push(u.message);
        proof {
            let now = uses@.take(i + 1);
            assert(now[i as int] == u);
            if any_reveals(before) {
                let w = choose|w: int| 0 <= w < before.len() && before[w].item_exists && before[w].reveals_map;
                assert(now[w] == before[w]);
            }
            if any_reveals(now) && !(u.item_exists && u.reveals_map) {
                let w = choose|w: int| 0 <= w < now.len() && now[w].item_exists && now[w].reveals_map;
                assert(before[w] == now[w]);
            }
            assert(removed@ =~= use_effects(now).3);
            assert(healing@ =~= use_effects(now).0);
            assert(armor@ =~= use_effects(now).1);
            assert(poison_resistance@ =~= use_effects(now).2);
            assert(sounds@ =~= use_effects(now).4);
        }
        i += 1;
    }
    proof {
        assert(uses@.take(uses.len() as int) =~= uses@);
    }
    UsePlan { healing, armor, poison_resistance, removed, sounds }
}

/// `current + amount`, but no more than `max`.
pub open spec fn capped_add(current: i32, amount: i32, max: i32) -> i32 {
    if max < current + amount { max } else { (current + amount) as i32 }
}

/// Heals a target by `amount`, up to its maximum; a target without health is
/// untouched and silent.
pub fn apply_healing(target: Option<Health>, amount: i32) -> (r: (Option<Health>, Option<Sound>))
    requires
        target matches Some(h) ==> i32::MIN <= h.current + amount <= i32::MAX,
    ensures
        target is None ==> r == (None::<Health>, None::<Sound>),
        target matches Some(h) ==> r == (
            Some(Health { current: capped_add(h.current, amount, h.max), max: h.max }),
            Some(Sound::Bottle),
        ),
{
    match target {
        Some(h) => {
            let sum = h.current + amount;
            (Some(Health { current: if h.max < sum { h.max } else { sum }, max: h.max }), Some(Sound::Bottle))
        },
        None => (None, None),
    }
}

/// Adds armor to a target, up to its maximum; a target without armor is
/// untouched and silent.
pub fn apply_armor(target: Option<Armor>, amount: i32) -> (r: (Option<Armor>, Option<Sound>))
    requires
        target matches Some(a) ==> i32::MIN <= a.current + amount <= i32::MAX,
    ensures
        target is None ==> r == (None::<Armor>, None::<Sound>),
        target matches Some(a) ==> r == (
            Some(Armor { current: capped_add(a.current, amount, a.max), max: a.max }),
            Some(Sound::Chainmail),
        ),
{
    match target {
        Some(a) => {
            let sum = a.current + amount;
            (Some(Armor { current: if a.max < sum { a.max } else { sum }, max: a.max }), Some(Sound::Chainmail))
        },
        None => (None, None),
    }
}

/// Adds poison resistance to a target, up to its maximum; a target without a
/// score is untouched and silent.
pub fn apply_poison_resistance(target: Option<Score>, amount: i32) -> (r: (Option<Score>, Option<Sound>))
    requires
        target matches Some(s) ==> i32::MIN <= s.poison_shield + amount <= i32::MAX,
    ensures
        target is None ==> r == (None::<Score>, None::<Sound>),
        target matches Some(s) ==> r == (
            Some(Score { poison_shield: capped_add(s.poison_shield, amount, s.max_poison_shield), ..s }),
            Some(Sound::PoisonResistance),
        ),
{
    match target {
        Some(s) => {
            let sum = s.poison_shield + amount;
            (
                Some(Score { poison_shield: if s.max_poison_shield < sum { s.max_poison_shield } else { sum }, ..s }),
                Some(Sound::PoisonResistance),
            )
        },
        None => (None, None),
    }
}

} // verus!
