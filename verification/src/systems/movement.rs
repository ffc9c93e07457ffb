//! Carrying out move requests.

use vstd::prelude::*;
use crate::components::{FieldOfView, Health, Score, POISON_DMG};
use crate::geometry::{Point, NUM_TILES};
use crate::map::{spec_index_in_map, spec_map_idx, map_idx, GameMap, TileType};

verus! {

/// What the movement system reads of the world for one move request.
pub struct MoverInfo {
    /// Whether the entity that asks to move still exists.
    pub exists: bool,
    pub is_player: bool,
    pub fov: Option<FieldOfView>,
    pub health: Option<Health>,
    pub score: Option<Score>,
}

/// The changes that one move request makes (besides revealing tiles).
pub struct MoveOutcome {
    /// The mover's field of view afterwards, to be computed again.
    pub fov: Option<FieldOfView>,
    /// The mover's new position, where it moves.
    pub position: Option<Point>,
    /// Whether the camera follows the player to the destination.
    pub camera_follows: bool,
    pub health: Option<Health>,
    pub score: Option<Score>,
}

/// Whether the index of tile `i` is that of a point in view.
pub open spec fn index_in_view(visible: Seq<Point>, i: int) -> bool {
    exists|k: int| 0 <= k < visible.len() && spec_map_idx(visible[k].x as int, visible[k].y as int) == i
}

/// A step on poison: it wears down the poison resistance when there is any,
/// else it costs health; neither goes below 0.
pub open spec fn poisoned(h: Health, s: Score) -> (Health, Score) {
    if s.poison_shield == 0 {
        let left = h.current - POISON_DMG;
        (Health { current: if left > 0 { left as i32 } else { 0 }, max: h.max }, s)
    } else {
        let left = s.poison_shield - POISON_DMG;
        (h, Score { poison_shield: if left > 0 { left as i32 } else { 0 }, ..s })
    }
}

/// Whether a step on poison stays within `i32`: it takes one from the
/// poison resistance while there is any, else one from health.
pub open spec fn poison_fits(h: Health, s: Score) -> bool {
    if s.poison_shield == 0 {
        h.current > i32::MIN
    } else {
        s.poison_shield > i32::MIN
    }
}

/// The effect of stepping on a poison floor.
pub fn poison_step(h: Health, s: Score) -> (r: (Health, Score))
    requires
        poison_fits(h, s),
    ensures
        r == poisoned(h, s),
{
    if s.poison_shield == 0 {
        let left = h.current - POISON_DMG;
        (Health { current: if left > 0 { left } else { 0 }, max: h.max }, s)
    } else {
        let left = s.poison_shield - POISON_DMG;
        (h, Score { poison_shield: if left > 0 { left } else { 0 }, ..s })
    }
}

/// Marks as revealed every tile in view; nothing else of the map changes.
pub fn reveal_visible(map: &mut GameMap, fov: &FieldOfView)
    requires
        old(map).wf(),
        forall|k: int| 0 <= k < fov.visible_tiles@.len() ==> spec_index_in_map(#[trigger] fov.visible_tiles@[k]),
    ensures
        final(map).wf(),
        final(map).tiles == old(map).tiles,
        final(map).key_carried == old(map).key_carried,
        final(map).spawned_points == old(map).spawned_points,
        final(map).prefab_indices == old(map).prefab_indices,
        forall|i: int| 0 <= i < NUM_TILES ==> #[trigger] final(map).revealed_tiles@[i] == (old(map).revealed_tiles@[i]
            || index_in_view(fov.visible_tiles@, i)),
{
    let mut k: usize = 0;
    while k < fov.visible_tiles.len()
        invariant
            k <= fov.visible_tiles.len(),
            map.wf(),
            map.tiles == old(map).tiles,
            map.key_carried == old(map).key_carried,
            map.spawned_points == old(map).spawned_points,
            map.prefab_indices == old(map).prefab_indices,
            forall|j: int| 0 <= j < fov.visible_tiles@.len() ==> spec_index_in_map(#[trigger] fov.visible_tiles@[j]),
            forall|i: int| 0 <= i < NUM_TILES ==> #[trigger] map.revealed_tiles@[i] == (old(map).revealed_tiles@[i]
                || index_in_view(fov.visible_tiles@.take(k as int), i)),
        decreases fov.visible_tiles.len() - k,
    {
        let pos = fov.visible_tiles[k];
        assert(spec_index_in_map(fov.visible_tiles@[k as int]));
        let idx = map_idx(pos.x, pos.y);
        map.revealed_tiles.set(idx, true);
        proof {
            let vis = fov.visible_tiles@;
            let t0 = vis.take(k as int);
            let t1 = vis.take(k + 1);
            assert forall|i: int| 0 <= i < NUM_TILES implies #[trigger] map.revealed_tiles@[i] == (old(map).revealed_tiles@[i]
                || index_in_view(t1, i)) by {
                if index_in_view(t0, i) {
                    let w = choose|w: int| 0 <= w < t0.len() && spec_map_idx(t0[w].x as int, t0[w].y as int) == i;
                    assert(t1[w] == t0[w]);
                }
                if index_in_view(t1, i) {
                    let w = choose|w: int| 0 <= w < t1.len() && spec_map_idx(t1[w].x as int, t1[w].y as int) == i;
                    if w < k {
                        assert(t0[w] == t1[w]);
                    }
                }
                if i == idx as int {
                    assert(t1[k as int] == pos);
                }
            }
        }
        k += 1;
    }
    proof {
        assert(fov.visible_tiles@.take(fov.visible_tiles@.len() as int) =~= fov.visible_tiles@);
    }
}

/// The movement system, for one request that `info`'s entity moves to
/// `destination`. A mover with a field of view gets a copy to be computed
/// again, and a player mover first reveals every tile it saw and has the
/// camera follow it. When the mover may enter the destination it moves
/// there; a player also has the camera follow it and, on a poison floor,
/// suffers the poison. Only what a request computes must stay within
/// bounds: the tiles a player saw, and the poison a player steps on.
pub fn movement(map: &mut GameMap, destination: Point, info: &MoverInfo) -> (o: MoveOutcome)
    requires
        old(map).wf(),
        info.exists && info.is_player ==> (info.fov matches Some(f) ==> forall|k: int|
            0 <= k < f.visible_tiles@.len() ==> spec_index_in_map(#[trigger] f.visible_tiles@[k])),
        old(map).spec_can_enter(destination) ==> info.exists,
        old(map).spec_can_enter(destination) && info.is_player && old(map).tile_at(destination) == TileType::PoisonFloor
            ==> (info.health matches Some(h) ==> (info.score matches Some(s) ==> poison_fits(h, s))),
    ensures
        final(map).wf(),
        final(map).tiles == old(map).tiles,
        final(map).key_carried == old(map).key_carried,
        final(map).spawned_points == old(map).spawned_points,
        final(map).prefab_indices == old(map).prefab_indices,
        forall|i: int| 0 <= i < NUM_TILES ==> #[trigger] final(map).revealed_tiles@[i] == (old(map).revealed_tiles@[i]
            || (info.exists && info.is_player && info.fov is Some && index_in_view(info.fov->0.visible_tiles@, i))),
        o.fov == (if info.exists && info.fov is Some {
            Some(FieldOfView { visible_tiles: o.fov->0.visible_tiles, radius: info.fov->0.radius, is_dirty: true })
        } else {
            None::<FieldOfView>
        }),
        o.fov matches Some(f) ==> f.visible_tiles@.len() == 0,
        o.position == (if old(map).spec_can_enter(destination) { Some(destination) } else { None }),
        o.camera_follows == (info.exists && info.is_player && (info.fov is Some || old(map).spec_can_enter(destination))),
        (old(map).spec_can_enter(destination) && info.is_player && old(map).tile_at(destination) == TileType::PoisonFloor
            && info.health is Some && info.score is Some) ==> (o.health->0, o.score->0) == poisoned(info.health->0, info.score->0)
            && o.health is Some && o.score is Some,
        !(old(map).spec_can_enter(destination) && info.is_player && old(map).tile_at(destination) == TileType::PoisonFloor
            && info.health is Some && info.score is Some) ==> o.health == info.health && o.score == info.score,
{
    let mut new_fov: Option<FieldOfView> = None;
    let mut camera_follows = false;
    if info.exists {
        match &info.fov {
            Some(fov) => {
                new_fov = Some(fov.clone_dirty());
                if info.is_player {
                    camera_follows = true;
                    reveal_visible(map, fov);
                }
            },
            None => {},
        }
    }
    let mut position: Option<Point> = None;
    let mut health = info.health;
    let mut score = info.score;
    if map.can_enter_tile(destination) {
        position = Some(destination);
        if info.is_player {
            camera_follows = true;
            let temp_idx = map.point2d_to_index(destination);
            if map.tiles[temp_idx] == TileType::PoisonFloor {
                if let Some(h) = info.health {
                    if let Some(s) = info.score {
                        let (h2, s2) = poison_step(h, s);
                        health = Some(h2);
                        score = Some(s2);
                    }
                }
            }
        }
    }
    MoveOutcome { fov: new_fov, position, camera_follows, health, score }
}

} // verus!
