//! The components that entities carry, and the constants of the game's rules.

use vstd::prelude::*;
use legion::Entity;
use bracket_lib::prelude::ColorPair;
use crate::geometry::Point;

verus! {

/// Starting radius of the player's field of view.
pub const REG_FOV: i32 = 8;
/// How much a field-of-view-reducing enemy takes off the player's radius.
pub const FOV_REDUC: i32 = 1;
/// Score taken by a score-stealing enemy.
pub const SCORE_STEAL_AMT: i32 = 100;
/// The deepest dungeon level; the tome lies there.
pub const MAX_LEVEL: u32 = 3;
/// The level theme the game starts in.
pub const START_LEVEL: u32 = 0;
/// Damage that a poison floor deals.
pub const POISON_DMG: i32 = 1;
/// Poison resistance the player starts with.
pub const START_P_RESISTANCE: i32 = 2;
/// Largest poison resistance the player can have.
pub const MAX_P_RESISTANCE: i32 = 5;
/// Health at or below which the player hears a warning.
pub const HEALTH_WARN_THRESHOLD: i32 = 5;

/// How an entity is drawn: its colours and its glyph.
#[derive(Clone, Copy, Debug, PartialEq)]
pub struct Render {
    pub color: ColorPair,
    pub glyph: u16,
}

/// Marks the player, with the dungeon level it is on.
#[derive(Clone, Copy, Debug, PartialEq, Eq, Structural)]
pub struct Player {
    pub map_level: u32,
}

#[derive(Clone, Copy, Debug, PartialEq, Eq, Structural)]
pub struct Enemy;

#[derive(Clone, Copy, Debug, PartialEq, Eq, Structural)]
pub struct MovingRandomly;

/// A request that `entity` moves to `destination`.
#[derive(Clone, Copy, Debug, PartialEq)]
pub struct WantsToMove {
    pub entity: Entity,
    pub destination: Point,
}

/// A request that `attacker` attacks `victim`.
#[derive(Clone, Copy, Debug, PartialEq)]
pub struct WantsToAttack {
    pub attacker: Entity,
    pub victim: Entity,
}

#[derive(Clone, Copy, Debug, PartialEq, Eq, Structural)]
pub struct Health {
    pub current: i32,
    pub max: i32,
}

#[derive(Clone, Copy, Debug, PartialEq, Eq, Structural)]
pub struct Armor {
    pub current: i32,
    pub max: i32,
}

/// The player's score, level theme and poison resistance.
#[derive(Clone, Copy, Debug, PartialEq, Eq, Structural)]
pub struct Score {
    pub current: i32,
    pub max: i32,
    pub level_theme: i32,
    pub poison_shield: i32,
    pub max_poison_shield: i32,
}

#[derive(Clone, Debug, PartialEq)]
pub struct Name(pub String);

#[derive(Clone, Copy, Debug, PartialEq, Eq, Structural)]
pub struct ChasingPlayer;

#[derive(Clone, Copy, Debug, PartialEq, Eq, Structural)]
pub struct Item;

#[derive(Clone, Copy, Debug, PartialEq, Eq, Structural)]
pub struct ScoreItem;

#[derive(Clone, Copy, Debug, PartialEq, Eq, Structural)]
pub struct FovItem;

#[derive(Clone, Copy, Debug, PartialEq, Eq, Structural)]
pub struct TomeOfAnth;

/// What an entity sees: the tiles in view (each at most once: they form a
/// set, see [`FieldOfView::wf`]), how far it sees, and whether the tiles in
/// view must be computed again.
#[derive(Clone, Debug, PartialEq)]
pub struct FieldOfView {
    pub visible_tiles: Vec<Point>,
    pub radius: i32,
    pub is_dirty: bool,
}

/// Whether no point occurs twice in `v`.
pub fn distinct_points(v: &Vec<Point>) -> (b: bool)
    ensures
        b == v@.no_duplicates(),
{
    let mut i: usize = 0;
    while i < v.len()
        invariant
            i <= v.len(),
            forall|a: int, b: int| 0 <= a < b < v@.len() && a < i ==> v@[a] != v@[b],
        decreases v.len() - i,
    {
        let mut j: usize = i + 1;
        while j < v.len()
            invariant
                i < v.len(),
                i < j <= v.len(),
                forall|a: int, b: int| 0 <= a < b < v@.len() && a < i ==> v@[a] != v@[b],
                forall|b: int| i < b < j ==> v@[i as int] != v@[b],
            decreases v.len() - j,
        {
            if v[i] == v[j] {
                return false;
            }
            j += 1;
        }
        i += 1;
    }
    true
}

impl FieldOfView {
    /// The set of tiles in view.
    pub open spec fn visible_set(&self) -> Set<Point> {
        self.visible_tiles@.to_set()
    }

    /// The tiles in view hold no tile twice.
    pub open spec fn wf(&self) -> bool {
        self.visible_tiles@.no_duplicates()
    }

    /// A field of view of the given radius, still to be computed.
    pub fn new(radius: i32) -> (f: FieldOfView)
        ensures
            f.wf(),
            f.visible_tiles@ == Seq::<Point>::empty(),
            f.radius == radius,
            f.is_dirty,
    {
        FieldOfView { visible_tiles: Vec::new(), radius, is_dirty: true }
    }

    /// A copy with the same radius whose tiles in view must be computed again.
    pub fn clone_dirty(&self) -> (f: FieldOfView)
        ensures
            f.wf(),
            f.visible_tiles@ == Seq::<Point>::empty(),
            f.radius == self.radius,
            f.is_dirty,
    {
        FieldOfView { visible_tiles: Vec::new(), radius: self.radius, is_dirty: true }
    }

    /// Widens the view by one tile; the tiles in view must be computed again.
    pub fn inc_fov(&mut self)
        requires
            old(self).radius < i32::MAX,
        ensures
            final(self).visible_tiles@ == Seq::<Point>::empty(),
            final(self).radius == old(self).radius + 1,
            final(self).wf(),
            final(self).is_dirty,
    {
        self.visible_tiles = Vec::new();
        self.radius = self.radius + 1;
        self.is_dirty = true;
    }

    /// Narrows the view by `FOV_REDUC` tiles; the tiles in view must be computed again.
    pub fn dec_fov(&mut self)
        requires
            old(self).radius >= i32::MIN + FOV_REDUC,
        ensures
            final(self).visible_tiles@ == Seq::<Point>::empty(),
            final(self).radius == old(self).radius - FOV_REDUC,
            final(self).wf(),
            final(self).is_dirty,
    {
        self.visible_tiles = Vec::new();
        self.radius = self.radius - FOV_REDUC;
        self.is_dirty = true;
    }

    /// Marks the view as to be computed again; the tiles in view and the
    /// radius stay.
    pub fn mark_dirty(&mut self)
        ensures
            final(self).is_dirty,
            final(self).visible_tiles == old(self).visible_tiles,
            final(self).radius == old(self).radius,
    {
        self.is_dirty = true;
    }

    /// Whether a point is in view.
    pub fn sees(&self, p: Point) -> (b: bool)
        ensures
            b == self.visible_set().contains(p),
    {
        let mut i: usize = 0;
        while i < self.visible_tiles.len()
            invariant
                i <= self.visible_tiles.len(),
                forall|j: int| 0 <= j < i ==> self.visible_tiles@[j] != p,
            decreases self.visible_tiles.len() - i,
        {
            if self.visible_tiles[i] == p {
                assert(self.visible_tiles@.contains(p));
                return true;
            }
            i += 1;
        }
        false
    }
}

#[derive(Clone, Copy, Debug, PartialEq, Eq, Structural)]
pub struct ProvidesHealing {
    pub amount: i32,
}

#[derive(Clone, Copy, Debug, PartialEq, Eq, Structural)]
pub struct ProvidesDungeonMap;

#[derive(Clone, Copy, Debug, PartialEq, Eq, Structural)]
pub struct ProvidesNVision {
    pub amount: i32,
}

#[derive(Clone, Copy, Debug, PartialEq, Eq, Structural)]
pub struct ProvidesArmor {
    pub amount: i32,
}

#[derive(Clone, Copy, Debug, PartialEq, Eq, Structural)]
pub struct ProvidesScore {
    pub amount: i32,
}

#[derive(Clone, Copy, Debug, PartialEq, Eq, Structural)]
pub struct ProvidesPoisonR {
    pub amount: i32,
}

/// Marks an item as carried by an entity.
#[derive(Clone, Copy, PartialEq, Debug)]
pub struct Carried(pub Entity);

#[derive(Clone, Copy, Debug, PartialEq, Eq, Structural)]
pub struct Utility;

/// A request that `used_by` uses `item`.
#[derive(Clone, Copy, Debug, PartialEq)]
pub struct ActivateItem {
    pub used_by: Entity,
    pub item: Entity,
}

#[derive(Clone, Copy, Debug, PartialEq, Eq, Structural)]
pub struct Damage(pub i32);

#[derive(Clone, Copy, Debug, PartialEq, Eq, Structural)]
pub struct Weapon;

#[derive(Clone, Copy, Debug, PartialEq, Eq, Structural)]
pub struct IgnoresArmor;

#[derive(Clone, Copy, Debug, PartialEq, Eq, Structural)]
pub struct AllSeeing;

#[derive(Clone, Copy, Debug, PartialEq, Eq, Structural)]
pub struct ReducesFOV;

#[derive(Clone, Copy, Debug, PartialEq, Eq, Structural)]
pub struct StealsScore {
    pub amount: i32,
}

#[derive(Clone, Debug, PartialEq)]
pub struct LevelTheme(pub String);

#[derive(Clone, Copy, Debug, PartialEq, Eq, Structural)]
pub struct PoisonShield {
    pub amount: i32,
}

#[derive(Clone, Copy, Debug, PartialEq, Eq, Structural)]
pub struct SmallMonster;

#[derive(Clone, Copy, Debug, PartialEq, Eq, Structural)]
pub struct LargeMonster;

} // verus!
