//! Templates of the entities that a level is populated with.
//!
//! The templates are read from a data file elsewhere; here they decide which
//! entities appear and which components each gets.

use vstd::prelude::*;
use std::collections::HashSet;
use bracket_lib::prelude::RandomNumberGenerator;
use legion::Entity;
use legion::systems::CommandBuffer;
use crate::bracket::{color_pair, glyph_of, cp437, BLACK, WHITE};
use crate::components::{
    ChasingPlayer, Damage, Enemy, FieldOfView, Health, Item, Name, ProvidesArmor,
    ProvidesDungeonMap, ProvidesHealing, ProvidesNVision, ProvidesScore, Render, ScoreItem, Weapon,
};
use crate::ecs::{add_component, queued, AsPart, Part, Queued};
use crate::geometry::Point;

verus! {

/// What kind of entity a template describes.
#[derive(Clone, Copy, Debug, PartialEq, Eq, Structural)]
pub enum EntityType {
    Enemy,
    Item,
    Score,
}

/// The description of one kind of entity.
#[derive(Debug)]
pub struct Template {
    pub entity_type: EntityType,
    /// The levels on which it may appear.
    pub levels: HashSet<usize>,
    /// How many entries it gets in a level's draw.
    pub frequency: i32,
    pub name: String,
    pub glyph: char,
    /// Effects it provides, by name, with their amounts.
    pub provides: Option<Vec<(String, i32)>>,
    pub hp: Option<i32>,
    pub base_damage: Option<i32>,
}

/// All the templates.
#[derive(Debug)]
pub struct Templates {
    pub entities: Vec<Template>,
}

/// An effect that an entity provides.
#[derive(Clone, Copy, Debug, PartialEq, Eq, Structural)]
pub enum Provided {
    Healing(i32),
    MagicMap,
    NVision(i32),
    Armor(i32),
    Score(i32),
}

/// The effect that a provided name stands for; other names provide nothing.
pub open spec fn provided_spec(name: Seq<char>, n: i32) -> Option<Provided> {
    if name == "Healing"@ {
        Some(Provided::Healing(n))
    } else if name == "MagicMap"@ {
        Some(Provided::MagicMap)
    } else if name == "NVision"@ {
        Some(Provided::NVision(n))
    } else if name == "Armor"@ {
        Some(Provided::Armor(n))
    } else if name == "Score"@ {
        Some(Provided::Score(n))
    } else {
        None
    }
}

/// The effects of a list of provided names, in order, skipping unknown names.
pub open spec fn effects_spec(p: Seq<(String, i32)>) -> Seq<Provided>
    decreases p.len(),
{
    if p.len() == 0 {
        Seq::empty()
    } else {
        effects_spec(p.drop_last()) + match provided_spec(p.last().0@, p.last().1) {
            Some(e) => seq![e],
            None => Seq::empty(),
        }
    }
}

/// `count` copies of `idx` (none when `count` is not positive).
pub open spec fn copies(idx: usize, count: int) -> Seq<usize> {
    Seq::new(if count > 0 { count as nat } else { 0 }, |_k: int| idx)
}

/// The draw of a level: each template that may appear on it, by index,
/// as many times as its frequency, in template order.
pub open spec fn pool(ts: Seq<Template>, level: usize) -> Seq<usize>
    decreases ts.len(),
{
    if ts.len() == 0 {
        Seq::empty()
    } else {
        pool(ts.drop_last(), level) + (if ts.last().levels@.contains(level) {
            copies((ts.len() - 1) as usize, ts.last().frequency as int)
        } else {
            Seq::empty()
        })
    }
}

/// The components that a template gives an entity beyond its position,
/// look and name.
pub struct SpawnPlan {
    pub kind: EntityType,
    /// Health of an enemy (its hit points, full).
    pub health: Option<Health>,
    pub effects: Vec<Provided>,
    pub damage: Option<i32>,
    /// Whether it is a weapon: an item that deals damage.
    pub weapon: bool,
}

/// The effect that a provided name stands for.
pub fn provided(name: &String, n: i32) -> (r: Option<Provided>)
    ensures
        r == provided_spec(name@, n),
{
    if *name == "Healing".to_string() {
        Some(Provided::Healing(n))
    } else if *name == "MagicMap".to_string() {
        Some(Provided::MagicMap)
    } else if *name == "NVision".to_string() {
        Some(Provided::NVision(n))
    } else if *name == "Armor".to_string() {
        Some(Provided::Armor(n))
    } else if *name == "Score".to_string() {
        Some(Provided::Score(n))
    } else {
        None
    }
}

/// The plan of the components that `t` gives: enemies get full health of
/// their hit points; the provided effects in order; damage where the
/// template deals it, which makes an item a weapon.
pub fn spawn_plan(t: &Template) -> (p: SpawnPlan)
    requires
        t.entity_type == EntityType::Enemy ==> t.hp is Some,
    ensures
        p.kind == t.entity_type,
        p.health == (if t.entity_type == EntityType::Enemy {
            Some(Health { current: t.hp->0, max: t.hp->0 })
        } else {
            None
        }),
        p.effects@ == (match t.provides {
            Some(v) => effects_spec(v@),
            None => Seq::<Provided>::empty(),
        }),
        p.damage == t.base_damage,
        p.weapon == (t.base_damage is Some && t.entity_type == EntityType::Item),
{
    let health = match t.entity_type {
        EntityType::Enemy => {
            let hp = match t.hp {
                Some(hp) => hp,
                None => 0,
            };
            Some(Health { current: hp, max: hp })
        },
        _ => None,
    };
    let mut effects: Vec<Provided> = Vec::new();
    match &t.provides {
        Some(v) => {
            let mut i: usize = 0;
            while i < v.len()
                invariant
                    i <= v.len(),
                    effects@ == effects_spec(v@.take(i as int)),
                decreases v.len() - i,
            {
                proof {
                    assert(v@.take(i + 1).drop_last() =~= v@.take(i as int));
                }
                let (name, n) = &v[i];
                match provided(name, *n) {
                    Some(e) => effects.push(e),
                    None => {},
                }
                proof {
                    assert(effects@ =~= effects_spec(v@.take(i + 1)));
                }
                i += 1;
            }
            proof {
                assert(v@.take(v.len() as int) =~= v@);
            }
        },
        None => {},
    }
    let weapon = t.base_damage.is_some() && t.entity_type == EntityType::Item;
    SpawnPlan { kind: t.entity_type, health, effects, damage: t.base_damage, weapon }
}

/// The component that a provided effect gives.
pub open spec fn effect_part(p: Provided) -> Part {
    match p {
        Provided::Healing(n) => Part::Healing(n),
        Provided::MagicMap => Part::DungeonMap,
        Provided::NVision(n) => Part::NVision(n),
        Provided::Armor(n) => Part::ArmorGain(n),
        Provided::Score(n) => Part::ScoreGain(n),
    }
}

/// The additions of the components of effects `es` to `e`, in order.
pub open spec fn effect_adds(e: Entity, es: Seq<Provided>) -> Seq<Queued>
    decreases es.len(),
{
    if es.len() == 0 {
        Seq::empty()
    } else {
        effect_adds(e, es.drop_last()).push(Queued::Add(e, effect_part(es.last())))
    }
}

/// The effects that a template provides, in order.
pub open spec fn template_effects(t: Template) -> Seq<Provided> {
    match t.provides {
        Some(v) => effects_spec(v@),
        None => Seq::empty(),
    }
}

/// The components that an entity of template `t` gets after its
/// insertion, in order: its kind's tags (an enemy also a fresh view of
/// radius 6, the chase and full health), its effects, and its damage (which
/// makes an item a weapon).
pub open spec fn template_adds(e: Entity, t: Template) -> Seq<Queued> {
    (match t.entity_type {
        EntityType::Item => seq![Queued::Add(e, Part::Item)],
        EntityType::Score => seq![Queued::Add(e, Part::ScoreItem)],
        EntityType::Enemy => seq![
            Queued::Add(e, Part::Enemy),
            Queued::Add(e, Part::View(6, true, 0)),
            Queued::Add(e, Part::ChasingPlayer),
            Queued::Add(e, Part::Health(Health { current: t.hp->0, max: t.hp->0 })),
        ],
    }) + effect_adds(e, template_effects(t)) + (match t.base_damage {
        Some(d) => seq![Queued::Add(e, Part::Damage(d))] + (if t.entity_type == EntityType::Item {
            seq![Queued::Add(e, Part::Weapon)]
        } else {
            Seq::empty()
        }),
        None => Seq::empty(),
    })
}

/// The changes queued to spawn template `t` at `pt` as entity `e` with the
/// look `r`: its insertion with its position, look and name, then its
/// further components.
pub open spec fn spawn_commands(e: Entity, pt: Point, r: Render, t: Template) -> Seq<Queued> {
    seq![Queued::Insert(e, pt, r, Name(t.name))] + template_adds(e, t)
}

/// The changes queued for the first `n` spawn points, where spawn point `k`
/// got template `draws[k].0` as entity `draws[k].1` with look `draws[k].2`.
pub open spec fn spawns_upto(pts: Seq<Point>, draws: Seq<(usize, Entity, Render)>, ts: Seq<Template>, n: int) -> Seq<Queued>
    decreases n,
{
    if n <= 0 {
        Seq::empty()
    } else {
        spawns_upto(pts, draws, ts, n - 1) + spawn_commands(draws[n - 1].1, pts[n - 1], draws[n - 1].2, ts[draws[n - 1].0 as int])
    }
}

/// Whether each draw takes its template from the level's draw `pool`, and
/// gives the entity that template's glyph.
pub open spec fn draws_from(draws: Seq<(usize, Entity, Render)>, pool: Seq<usize>, ts: Seq<Template>) -> bool {
    forall|k: int|
        #![trigger draws[k]]
        0 <= k < draws.len() ==> pool.contains(draws[k].0) && draws[k].0 < ts.len() && draws[k].2.glyph == cp437(
            ts[draws[k].0 as int].glyph,
        )
}

/// Queues a new entity with a position, a look and a name (legion's
/// `CommandBuffer::push`): the queue gains the insertion of the returned
/// entity with exactly these components. Which identifier comes back is not
/// modelled.
#[verifier::external_body]
fn push_named(commands: &mut CommandBuffer, pos: Point, render: Render, name: Name) -> (e: Entity)
    ensures
        queued(*final(commands)) == queued(*old(commands)).push(Queued::Insert(e, pos, render, name)),
{
    commands.push((pos, render, name))
}

/// Draws one entry of a slice at random (bracket-lib's
/// `RandomNumberGenerator::random_slice_entry`): `None` exactly for an empty
/// slice, else one of its elements; which one depends on the generator.
/// The draw rolls a die with as many faces as the slice has elements, so the
/// slice's length must fit an `i32`.
#[verifier::external_body]
fn random_entry<'a>(rng: &mut RandomNumberGenerator, slice: &'a [usize]) -> (r: Option<&'a usize>)
    requires
        slice@.len() < i32::MAX,
    ensures
        r is None <==> slice@.len() == 0,
        r matches Some(x) ==> slice@.contains(*x),
{
    rng.random_slice_entry(slice)
}

impl Templates {
    /// The draw of a level: the index of each template that may appear on
    /// `level`, repeated as often as its frequency.
    pub fn available_entities(&self, level: usize) -> (v: Vec<usize>)
        ensures
            v@ == pool(self.entities@, level),
    {
        let mut v: Vec<usize> = Vec::new();
        let mut t: usize = 0;
        while t < self.entities.len()
            invariant
                t <= self.entities.len(),
                v@ == pool(self.entities@.take(t as int), level),
            decreases self.entities.len() - t,
        {
            proof {
                assert(self.entities@.take(t + 1).drop_last() =~= self.entities@.take(t as int));
            }
            let tpl = &self.entities[t];
            let ghost start = v@;
            if tpl.levels.contains(&level) {
                let mut j: i32 = 0;
                while j < tpl.frequency
                    invariant
                        0 <= j,
                        j <= tpl.frequency || j == 0,
                        v@ == start + copies(t, j as int),
                    decreases tpl.frequency - j,
                {
                    v.push(t);
                    proof {
                        assert(start + copies(t, j + 1) =~= (start + copies(t, j as int)).push(t));
                    }
                    j = j + 1;
                }
                proof {
                    assert(copies(t, j as int) =~= copies(t, tpl.frequency as int));
                }
            }
            proof {
                assert(v@ =~= pool(self.entities@.take(t + 1), level));
            }
            t += 1;
        }
        proof {
            assert(self.entities@.take(self.entities.len() as int) =~= self.entities@);
        }
        v
    }

    /// Queues an entity made from `template` at `pt`: its insertion with
    /// its position, its glyph and its name, then the components of
    /// [`spawn_plan`] (see [`spawn_commands`]).
    pub fn spawn_entity(&self, pt: &Point, template: &Template, commands: &mut CommandBuffer)
        requires
            template.entity_type == EntityType::Enemy ==> template.hp is Some,
        ensures
            exists|e: Entity, r: Render|
                r.glyph == cp437(template.glyph) && queued(*final(commands)) == queued(*old(commands)) + spawn_commands(
                    e,
                    *pt,
                    r,
                    *template,
                ),
    {
        let ghost start = queued(*commands);
        let render = Render { color: color_pair(WHITE, BLACK), glyph: glyph_of(template.glyph) };
        let entity = push_named(commands, *pt, render, Name(template.name.clone()));
        let plan = spawn_plan(template);
        let ghost t = *template;
        let ghost head = start + seq![Queued::Insert(entity, *pt, render, Name(t.name))];
        let ghost kind = match t.entity_type {
            EntityType::Item => seq![Queued::Add(entity, Part::Item)],
            EntityType::Score => seq![Queued::Add(entity, Part::ScoreItem)],
            EntityType::Enemy => seq![
                Queued::Add(entity, Part::Enemy),
                Queued::Add(entity, Part::View(6, true, 0)),
                Queued::Add(entity, Part::ChasingPlayer),
                Queued::Add(entity, Part::Health(Health { current: t.hp->0, max: t.hp->0 })),
            ],
        };
        assert(queued(*commands) == start.push(Queued::Insert(entity, *pt, render, Name(t.name))));
        match plan.kind {
            EntityType::Item => add_component(commands, entity, Item {}),
            EntityType::Score => add_component(commands, entity, ScoreItem {}),
            EntityType::Enemy => {
                add_component(commands, entity, Enemy {});
                let view = FieldOfView::new(6);
                assert(view.part() == Part::View(6, true, 0));
                add_component(commands, entity, view);
                add_component(commands, entity, ChasingPlayer {});
                match plan.health {
                    Some(h) => add_component(commands, entity, h),
                    None => {},
                }
            },
        }
        assert(queued(*commands) =~= head + kind);
        let mut i: usize = 0;
        while i < plan.effects.len()
            invariant
                i <= plan.effects.len(),
                plan.effects@ == template_effects(t),
                queued(*commands) == head + kind + effect_adds(entity, plan.effects@.take(i as int)),
            decreases plan.effects.len() - i,
        {
            proof {
                assert(plan.effects@.take(i + 1).drop_last() =~= plan.effects@.take(i as int));
                assert(plan.effects@.take(i + 1).last() == plan.effects@[i as int]);
            }
            match plan.effects[i] {
                Provided::Healing(n) => add_component(commands, entity, ProvidesHealing { amount: n }),
                Provided::MagicMap => add_component(commands, entity, ProvidesDungeonMap {}),
                Provided::NVision(n) => add_component(commands, entity, ProvidesNVision { amount: n }),
                Provided::Armor(n) => add_component(commands, entity, ProvidesArmor { amount: n }),
                Provided::Score(n) => add_component(commands, entity, ProvidesScore { amount: n }),
            }
            i += 1;
        }
        proof {
            assert(plan.effects@.take(plan.effects.len() as int) =~= plan.effects@);
        }
        if let Some(damage) = plan.damage {
            add_component(commands, entity, Damage(damage));
            if plan.weapon {
                add_component(commands, entity, Weapon {});
            }
        }
        assert(queued(*commands) =~= start + spawn_commands(entity, *pt, render, t));
    }

    /// Populates a level: each spawn point, in order, gets an entity drawn
    /// at random from the level's draw (see [`Templates::available_entities`]),
    /// queued as [`Templates::spawn_entity`] queues it; with an empty draw
    /// nothing is queued.
    pub fn spawn_entities(
        &self,
        commands: &mut CommandBuffer,
        rng: &mut RandomNumberGenerator,
        level: usize,
        spawn_points: &[Point],
    )
        requires
            pool(self.entities@, level).len() < i32::MAX,
            forall|i: int| 0 <= i < self.entities@.len() ==> (#[trigger] self.entities@[i]).entity_type
                == EntityType::Enemy ==> self.entities@[i].hp is Some,
        ensures
            pool(self.entities@, level).len() == 0 ==> queued(*final(commands)) == queued(*old(commands)),
            pool(self.entities@, level).len() > 0 ==> exists|draws: Seq<(usize, Entity, Render)>|
                {
                    &&& draws.len() == spawn_points@.len()
                    &&& draws_from(draws, pool(self.entities@, level), self.entities@)
                    &&& queued(*final(commands)) == queued(*old(commands)) + spawns_upto(
                        spawn_points@,
                        draws,
                        self.entities@,
                        draws.len() as int,
                    )
                },
    {
        let available = self.available_entities(level);
        let ghost ts = self.entities@;
        let ghost mut draws: Seq<(usize, Entity, Render)> = Seq::empty();
        let mut i: usize = 0;
        while i < spawn_points.len()
            invariant
                i <= spawn_points.len(),
                ts == self.entities@,
                available@ == pool(ts, level),
                pool(ts, level).len() < i32::MAX,
                forall|k: int| 0 <= k < ts.len() ==> (#[trigger] ts[k]).entity_type == EntityType::Enemy ==> ts[k].hp is Some,
                available@.len() == 0 ==> queued(*commands) == queued(*old(commands)),
                available@.len() > 0 ==> {
                    &&& draws.len() == i
                    &&& draws_from(draws, pool(ts, level), ts)
                    &&& queued(*commands) == queued(*old(commands)) + spawns_upto(spawn_points@, draws, ts, i as int)
                },
            decreases spawn_points.len() - i,
        {
            match random_entry(rng, available.as_slice()) {
                Some(idx) => {
                    proof {
                        lemma_pool_in_range(ts, level, *idx);
                    }
                    let t = &self.entities[*idx];
                    let ghost before = queued(*commands);
                    self.spawn_entity(&spawn_points[i], t, commands);
                    proof {
                        let (e, r) = choose|e: Entity, r: Render|
                            r.glyph == cp437(t.glyph) && queued(*commands) == before + spawn_commands(
                                e,
                                spawn_points@[i as int],
                                r,
                                *t,
                            );
                        let old_draws = draws;
                        draws = draws.push((*idx, e, r));
                        assert forall|k: int| 0 <= k < draws.len() implies pool(ts, level).contains(
                            #[trigger] draws[k].0,
                        ) && draws[k].0 < ts.len() && draws[k].2.glyph == cp437(ts[draws[k].0 as int].glyph) by {
                            if k < old_draws.len() {
                                assert(draws[k] == old_draws[k]);
                            }
                        }
                        assert(spawns_upto(spawn_points@, draws, ts, i as int) == spawns_upto(
                            spawn_points@,
                            old_draws,
                            ts,
                            i as int,
                        )) by {
                            lemma_spawns_prefix(spawn_points@, old_draws, draws, ts, i as int);
                        }
                        assert(queued(*commands) =~= queued(*old(commands)) + spawns_upto(
                            spawn_points@,
                            draws,
                            ts,
                            i + 1,
                        ));
                    }
                },
                None => {},
            }
            i += 1;
        }
    }
}

/// The changes queued for the first `n` spawn points depend only on the
/// first `n` draws.
proof fn lemma_spawns_prefix(
    pts: Seq<Point>,
    a: Seq<(usize, Entity, Render)>,
    b: Seq<(usize, Entity, Render)>,
    ts: Seq<Template>,
    n: int,
)
    requires
        n <= a.len(),
        n <= b.len(),
        forall|k: int| 0 <= k < n ==> a[k] == b[k],
    ensures
        spawns_upto(pts, a, ts, n) == spawns_upto(pts, b, ts, n),
    decreases n,
{
    if n > 0 {
        lemma_spawns_prefix(pts, a, b, ts, n - 1);
    }
}

/// Every entry of a level's draw is the index of a template.
pub proof fn lemma_pool_in_range(ts: Seq<Template>, level: usize, x: usize)
    requires
        pool(ts, level).contains(x),
    ensures
        x < ts.len(),
    decreases ts.len(),
{
    if ts.len() > 0 {
        let p = pool(ts.drop_last(), level);
        let tail = if ts.last().levels@.contains(level) {
            copies((ts.len() - 1) as usize, ts.last().frequency as int)
        } else {
            Seq::<usize>::empty()
        };
        let k = choose|k: int| 0 <= k < pool(ts, level).len() && pool(ts, level)[k] == x;
        if k < p.len() {
            assert(p[k] == x);
            lemma_pool_in_range(ts.drop_last(), level, x);
        } else {
            assert(tail[k - p.len()] == x);
        }
    }
}

} // verus!
