//! The entity-component store of the game (legion): the types that the
//! components and the spawner name, the few calls that the spawner makes,
//! and how the library's contracts record what a world holds and what a
//! command buffer has queued.

use vstd::prelude::*;
use legion::systems::CommandBuffer;
use legion::{Entity, World};
use crate::components::{
    Armor, ChasingPlayer, Damage, Enemy, FieldOfView, Health, Item, Name, Player, ProvidesArmor, ProvidesDungeonMap,
    ProvidesHealing, ProvidesNVision, ProvidesScore, Render, Score, ScoreItem, TomeOfAnth, Weapon,
};
use crate::geometry::Point;

verus! {

/// An entity of the game world (legion's opaque identifier).
#[verifier::external_type_specification]
#[verifier::external_body]
pub struct ExEntity(Entity);

/// The game world (legion's store of entities and their components).
#[verifier::external_type_specification]
#[verifier::external_body]
pub struct ExWorld(World);

/// A queue of changes to the game world, applied when it is flushed (legion).
#[verifier::external_type_specification]
#[verifier::external_body]
pub struct ExCommandBuffer(CommandBuffer);

/// One component of an entity, as the library's contracts record it. A
/// field of view is recorded by its radius, whether it must be computed
/// again, and how many tiles it holds.
pub enum Part {
    Player(Player),
    Position(Point),
    Look(Render),
    Health(Health),
    Armor(Armor),
    Score(Score),
    View(i32, bool, usize),
    Damage(i32),
    Item,
    ScoreItem,
    TomeOfAnth,
    Enemy,
    ChasingPlayer,
    Name(Name),
    Healing(i32),
    DungeonMap,
    NVision(i32),
    ArmorGain(i32),
    ScoreGain(i32),
    Weapon,
}

/// One queued change to the world: the insertion of a new entity with a
/// position, a look and a name, or the addition of a component to an entity.
pub enum Queued {
    Insert(Entity, Point, Render, Name),
    Add(Entity, Part),
}

/// A component type, with the record of each of its values.
pub trait AsPart {
    spec fn part(&self) -> Part;
}

impl AsPart for Item {
    open spec fn part(&self) -> Part {
        Part::Item
    }
}

impl AsPart for ScoreItem {
    open spec fn part(&self) -> Part {
        Part::ScoreItem
    }
}

impl AsPart for Enemy {
    open spec fn part(&self) -> Part {
        Part::Enemy
    }
}

impl AsPart for ChasingPlayer {
    open spec fn part(&self) -> Part {
        Part::ChasingPlayer
    }
}

impl AsPart for FieldOfView {
    open spec fn part(&self) -> Part {
        Part::View(self.radius, self.is_dirty, self.visible_tiles@.len() as usize)
    }
}

impl AsPart for Health {
    open spec fn part(&self) -> Part {
        Part::Health(*self)
    }
}

impl AsPart for ProvidesHealing {
    open spec fn part(&self) -> Part {
        Part::Healing(self.amount)
    }
}

impl AsPart for ProvidesDungeonMap {
    open spec fn part(&self) -> Part {
        Part::DungeonMap
    }
}

impl AsPart for ProvidesNVision {
    open spec fn part(&self) -> Part {
        Part::NVision(self.amount)
    }
}

impl AsPart for ProvidesArmor {
    open spec fn part(&self) -> Part {
        Part::ArmorGain(self.amount)
    }
}

impl AsPart for ProvidesScore {
    open spec fn part(&self) -> Part {
        Part::ScoreGain(self.amount)
    }
}

impl AsPart for Damage {
    open spec fn part(&self) -> Part {
        Part::Damage(self.0)
    }
}

impl AsPart for Weapon {
    open spec fn part(&self) -> Part {
        Part::Weapon
    }
}

impl AsPart for TomeOfAnth {
    open spec fn part(&self) -> Part {
        Part::TomeOfAnth
    }
}

/// The number of entities in a world (what legion's `World::len` returns).
pub uninterp spec fn world_len(w: World) -> nat;

/// What a world holds: each entity with its components, in the order they were given.
pub uninterp spec fn world_parts(w: World) -> Map<Entity, Seq<Part>>;

/// The changes that a command buffer has queued since it was made or last
/// flushed, in the order they were queued.
pub uninterp spec fn queued(c: CommandBuffer) -> Seq<Queued>;

/// Queues, through legion's `CommandBuffer::add_component`, the addition of
/// `component` to `entity`: the queue gains that one command at its end.
#[verifier::external_body]
pub(crate) fn add_component<C: AsPart + Send + Sync + 'static>(commands: &mut CommandBuffer, entity: Entity, component: C)
    ensures
        queued(*final(commands)) == queued(*old(commands)).push(Queued::Add(entity, component.part())),
{
    commands.add_component(entity, component);
}

} // verus!
