//! Putting the player, the tome and the level's inhabitants into the world.

pub mod template;

use vstd::prelude::*;
use bracket_lib::prelude::RandomNumberGenerator;
use legion::systems::CommandBuffer;
use legion::{Entity, World};
use crate::bracket::{color_pair, glyph_of, BLACK, WHITE};
use crate::components::{
    Armor, Damage, FieldOfView, Health, Item, Name, Player, Render, Score, TomeOfAnth,
    MAX_P_RESISTANCE, REG_FOV, START_P_RESISTANCE,
};
use crate::ecs::{queued, world_len, world_parts, AsPart, Part};
use crate::geometry::Point;
use crate::spawner::template::{draws_from, pool, spawns_upto, EntityType, Templates};

verus! {

/// The components that the player starts with.
pub struct PlayerBundle {
    pub player: Player,
    pub pos: Point,
    pub render: Render,
    pub health: Health,
    pub armor: Armor,
    pub score: Score,
    pub fov: FieldOfView,
    pub damage: Damage,
}

/// The components of the tome.
pub struct TomeBundle {
    pub item: Item,
    pub tome: TomeOfAnth,
    pub pos: Point,
    pub render: Render,
    pub name: Name,
}

/// The player's components, in the order they are pushed.
pub open spec fn player_parts(b: PlayerBundle) -> Seq<Part> {
    seq![
        Part::Player(b.player),
        Part::Position(b.pos),
        Part::Look(b.render),
        Part::Health(b.health),
        Part::Armor(b.armor),
        Part::Score(b.score),
        b.fov.part(),
        Part::Damage(b.damage.0),
    ]
}

/// The tome's components, in the order they are pushed.
pub open spec fn tome_parts(b: TomeBundle) -> Seq<Part> {
    seq![Part::Item, Part::TomeOfAnth, Part::Position(b.pos), Part::Look(b.render), Part::Name(b.name)]
}

/// Pushes the player's components into the world as one new entity
/// (legion's `World::push`, which gives the entity a fresh identifier): the
/// world holds one more entity, the returned one, with exactly these
/// components, and every other entity is as it was.
#[verifier::external_body]
fn push_player(ecs: &mut World, b: PlayerBundle) -> (e: Entity)
    ensures
        world_len(*final(ecs)) == world_len(*old(ecs)) + 1,
        !world_parts(*old(ecs)).dom().contains(e),
        world_parts(*final(ecs)) == world_parts(*old(ecs)).insert(e, player_parts(b)),
{
    ecs.push((b.player, b.pos, b.render, b.health, b.armor, b.score, b.fov, b.damage))
}

/// Pushes the tome's components into the world as one new entity (legion's
/// `World::push`, with a fresh identifier): the world holds one more entity,
/// the returned one, with exactly these components, and every other entity
/// is as it was.
#[verifier::external_body]
fn push_tome(ecs: &mut World, b: TomeBundle) -> (e: Entity)
    ensures
        world_len(*final(ecs)) == world_len(*old(ecs)) + 1,
        !world_parts(*old(ecs)).dom().contains(e),
        world_parts(*final(ecs)) == world_parts(*old(ecs)).insert(e, tome_parts(b)),
{
    ecs.push((b.item, b.tome, b.pos, b.render, b.name))
}

/// Whether `b` holds the player's starting components: on the first level,
/// at `pos`, drawn as '1', with 15 health, 10 armor, no score yet (up to
/// `i32::MAX`), starting poison resistance, the regular view radius (still
/// to be computed), and 1 damage.
pub open spec fn is_player_bundle(b: PlayerBundle, pos: Point) -> bool {
    &&& b.player.map_level == 0
    &&& b.pos == pos
    &&& b.render.glyph == '1' as u16
    &&& b.health == (Health { current: 15, max: 15 })
    &&& b.armor == (Armor { current: 10, max: 10 })
    &&& b.score == (Score {
        current: 0,
        max: i32::MAX,
        level_theme: 0,
        poison_shield: START_P_RESISTANCE,
        max_poison_shield: MAX_P_RESISTANCE,
    })
    &&& b.fov.visible_tiles@.len() == 0
    &&& b.fov.radius == REG_FOV
    &&& b.fov.is_dirty
    &&& b.damage == Damage(1)
}

/// The player's starting components (see [`is_player_bundle`]).
pub fn player_bundle(pos: Point) -> (b: PlayerBundle)
    ensures
        is_player_bundle(b, pos),
        b.player.map_level == 0,
        b.pos == pos,
        b.render.glyph == '1' as u16,
        b.health == (Health { current: 15, max: 15 }),
        b.armor == (Armor { current: 10, max: 10 }),
        b.score == (Score {
            current: 0,
            max: i32::MAX,
            level_theme: 0,
            poison_shield: START_P_RESISTANCE,
            max_poison_shield: MAX_P_RESISTANCE,
        }),
        b.fov.visible_tiles@.len() == 0,
        b.fov.radius == REG_FOV,
        b.fov.is_dirty,
        b.damage == Damage(1),
{
    PlayerBundle {
        player: Player { map_level: 0 },
        pos,
        render: Render { color: color_pair(WHITE, BLACK), glyph: glyph_of('1') },
        health: Health { current: 15, max: 15 },
        armor: Armor { current: 10, max: 10 },
        score: Score {
            current: 0,
            max: i32::MAX,
            level_theme: 0,
            poison_shield: START_P_RESISTANCE,
            max_poison_shield: MAX_P_RESISTANCE,
        },
        fov: FieldOfView::new(REG_FOV),
        damage: Damage(1),
    }
}

/// Whether `b` holds the tome's components: an item at `pos`, drawn as 'w',
/// named "Tome of Anthrophulos".
pub open spec fn is_tome_bundle(b: TomeBundle, pos: Point) -> bool {
    &&& b.pos == pos
    &&& b.render.glyph == 'w' as u16
    &&& b.name.0@ == "Tome of Anthrophulos"@
}

/// The tome's components (see [`is_tome_bundle`]).
pub fn tome_bundle(pos: Point) -> (b: TomeBundle)
    ensures
        is_tome_bundle(b, pos),
        b.pos == pos,
        b.render.glyph == 'w' as u16,
        b.name.0@ == "Tome of Anthrophulos"@,
{
    TomeBundle {
        item: Item,
        tome: TomeOfAnth,
        pos,
        render: Render { color: color_pair(WHITE, BLACK), glyph: glyph_of('w') },
        name: Name("Tome of Anthrophulos".to_string()),
    }
}

/// Adds the player to the world at `pos`, with the components of [`player_bundle`].
pub fn spawn_player(ecs: &mut World, pos: Point)
    ensures
        world_len(*final(ecs)) == world_len(*old(ecs)) + 1,
        exists|e: Entity, b: PlayerBundle|
            {
                &&& is_player_bundle(b, pos)
                &&& !world_parts(*old(ecs)).dom().contains(e)
                &&& world_parts(*final(ecs)) == world_parts(*old(ecs)).insert(e, player_parts(b))
            },
{
    let b = player_bundle(pos);
    let ghost kept = b;
    let player = push_player(ecs, b);
    assert(is_player_bundle(kept, pos) && world_parts(*ecs) == world_parts(*old(ecs)).insert(player, player_parts(kept)));
}

/// Adds the tome to the world at `pos`, with the components of [`tome_bundle`].
pub fn spawn_tome_of_anth(ecs: &mut World, pos: Point)
    ensures
        world_len(*final(ecs)) == world_len(*old(ecs)) + 1,
        exists|e: Entity, b: TomeBundle|
            {
                &&& is_tome_bundle(b, pos)
                &&& !world_parts(*old(ecs)).dom().contains(e)
                &&& world_parts(*final(ecs)) == world_parts(*old(ecs)).insert(e, tome_parts(b))
            },
{
    let b = tome_bundle(pos);
    let ghost kept = b;
    let tome = push_tome(ecs, b);
    assert(is_tome_bundle(kept, pos) && world_parts(*ecs) == world_parts(*old(ecs)).insert(tome, tome_parts(kept)));
}

/// Populates a level from the entity templates (read beforehand from the
/// data file): see [`Templates::spawn_entities`].
pub fn spawn_level(
    templates: &Templates,
    commands: &mut CommandBuffer,
    rng: &mut RandomNumberGenerator,
    level: usize,
    spawn_points: &[Point],
)
    requires
        pool(templates.entities@, level).len() < i32::MAX,
        forall|i: int| 0 <= i < templates.entities@.len() ==> (#[trigger] templates.entities@[i]).entity_type
            == EntityType::Enemy ==> templates.entities@[i].hp is Some,
    ensures
        pool(templates.entities@, level).len() == 0 ==> queued(*final(commands)) == queued(*old(commands)),
        pool(templates.entities@, level).len() > 0 ==> exists|draws: Seq<(usize, Entity, Render)>|
            {
                &&& draws.len() == spawn_points@.len()
                &&& draws_from(draws, pool(templates.entities@, level), templates.entities@)
                &&& queued(*final(commands)) == queued(*old(commands)) + spawns_upto(
                    spawn_points@,
                    draws,
                    templates.entities@,
                    draws.len() as int,
                )
            },
{
    templates.spawn_entities(commands, rng, level, spawn_points);
}

} // verus!
