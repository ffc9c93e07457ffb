//! Caves carved by drunken miners: random walks that turn walls into floor.

use vstd::prelude::*;
use bracket_lib::prelude::RandomNumberGenerator;
use crate::bracket::rng_range;
use crate::geometry::{Point, NUM_TILES, SCREEN_HEIGHT, SCREEN_WIDTH};
use crate::map::{spec_in_bounds, spec_index_in_map, spec_map_idx, GameMap, TileType};

verus! {

/// How many steps a miner takes at most.
pub const STAGGER_DIST: usize = 400;
/// How many floor tiles a finished cave has at least (a third of the map).
pub const DESIRED_FLOOR: usize = 1333;

/// Builds caves with drunken miners.
pub struct DrunkardWalkArchitect {}

/// Whether `b` is one step (west, east, north or south) from `a`.
pub open spec fn is_step(a: Point, b: Point) -> bool {
    ||| (b.y == a.y && (b.x == a.x - 1 || b.x == a.x + 1))
    ||| (b.x == a.x && (b.y == a.y - 1 || b.y == a.y + 1))
}

/// The tiles after a miner has walked `walk`, turning each tile it stood on into floor.
pub open spec fn carve(tiles: Seq<TileType>, walk: Seq<Point>) -> Seq<TileType>
    decreases walk.len(),
{
    if walk.len() == 0 {
        tiles
    } else {
        carve(tiles, walk.drop_last()).update(
            spec_map_idx(walk.last().x as int, walk.last().y as int),
            TileType::Floor,
        )
    }
}

/// Whether a point has a neighbour off the map (it lies on the map's border
/// or off the map itself).
pub open spec fn at_edge(p: Point) -> bool {
    p.x <= 0 || p.x >= SCREEN_WIDTH - 1 || p.y <= 0 || p.y >= SCREEN_HEIGHT - 1
}

/// Whether a miner's walk has ended as a miner's walk ends: with
/// `STAGGER_DIST` positions, or at a tile from which its next step left the map.
pub open spec fn walk_ended(walk: Seq<Point>) -> bool {
    walk.len() == STAGGER_DIST || at_edge(walk.last())
}

/// Whether `walk` is a walk a miner may take from `start`: it starts there,
/// takes single steps, stays on the map after the start, and has at most
/// `STAGGER_DIST` positions.
pub open spec fn miner_walk(start: Point, walk: Seq<Point>) -> bool {
    &&& 0 < walk.len() <= STAGGER_DIST
    &&& walk[0] == start
    &&& forall|k: int| 0 < k < walk.len() ==> spec_in_bounds(#[trigger] walk[k])
    &&& forall|k: int| 0 < k < walk.len() ==> is_step(walk[k - 1], #[trigger] walk[k])
}

/// The number of floor tiles.
pub open spec fn floor_count(tiles: Seq<TileType>) -> nat
    decreases tiles.len(),
{
    if tiles.len() == 0 {
        0
    } else {
        floor_count(tiles.drop_last()) + (if tiles.last() == TileType::Floor { 1nat } else { 0 })
    }
}

impl DrunkardWalkArchitect {
    /// Sends a miner from `start`: it turns the tile it stands on into floor,
    /// steps in a random direction, and goes on until it leaves the map or has
    /// carved `STAGGER_DIST` tiles. Only tiles of its walk change, and the
    /// walk stops only at its full length or where its next step left the map.
    pub fn drunkard(&mut self, start: &Point, rng: &mut RandomNumberGenerator, map: &mut GameMap)
        requires
            old(map).wf(),
            spec_index_in_map(*start),
            i32::MIN < start.x < i32::MAX,
            i32::MIN < start.y < i32::MAX,
        ensures
            final(map).wf(),
            final(map).revealed_tiles == old(map).revealed_tiles,
            final(map).key_carried == old(map).key_carried,
            final(map).spawned_points == old(map).spawned_points,
            final(map).prefab_indices == old(map).prefab_indices,
            exists|walk: Seq<Point>|
                miner_walk(*start, walk) && walk_ended(walk) && final(map).tiles@ == carve(old(map).tiles@, walk),
    {
        let mut drunkard_pos = *start;
        let mut distance_staggered: usize = 0;
        let ghost mut walk: Seq<Point> = Seq::empty();
        loop
            invariant_except_break
                map.wf(),
                map.revealed_tiles == old(map).revealed_tiles,
                map.key_carried == old(map).key_carried,
                map.spawned_points == old(map).spawned_points,
                map.prefab_indices == old(map).prefab_indices,
                distance_staggered < STAGGER_DIST,
                walk.len() == distance_staggered,
                spec_index_in_map(drunkard_pos),
                i32::MIN < drunkard_pos.x < i32::MAX,
                i32::MIN < drunkard_pos.y < i32::MAX,
                walk.len() == 0 ==> drunkard_pos == *start,
                walk.len() > 0 ==> walk[0] == *start && is_step(walk.last(), drunkard_pos) && spec_in_bounds(drunkard_pos),
                forall|k: int| 0 < k < walk.len() ==> spec_in_bounds(#[trigger] walk[k]),
                forall|k: int| 0 < k < walk.len() ==> is_step(walk[k - 1], #[trigger] walk[k]),
                forall|k: int| 0 <= k < walk.len() ==> spec_index_in_map(#[trigger] walk[k]),
                map.tiles@ == carve(old(map).tiles@, walk),
            ensures
                map.wf(),
                map.revealed_tiles == old(map).revealed_tiles,
                map.key_carried == old(map).key_carried,
                map.spawned_points == old(map).spawned_points,
                map.prefab_indices == old(map).prefab_indices,
                miner_walk(*start, walk),
                walk_ended(walk),
                map.tiles@ == carve(old(map).tiles@, walk),
            decreases STAGGER_DIST - distance_staggered,
        {
            let drunk_idx = map.point2d_to_index(drunkard_pos);
            map.tiles.set(drunk_idx, TileType::Floor);
            let ghost prev = walk;
            proof {
                walk = walk.push(drunkard_pos);
                assert(walk.drop_last() =~= prev);
                assert forall|k: int| 0 < k < walk.len() implies is_step(walk[k - 1], #[trigger] walk[k]) by {
                    if k < prev.len() {
                        assert(walk[k - 1] == prev[k - 1]);
                        assert(walk[k] == prev[k]);
                    }
                }
            }
            let r = rng_range(rng, 0, 4);
            let before = drunkard_pos;
            if r == 0 {
                drunkard_pos.x = drunkard_pos.x - 1;
            } else if r == 1 {
                drunkard_pos.x = drunkard_pos.x + 1;
            } else if r == 2 {
                drunkard_pos.y = drunkard_pos.y - 1;
            } else {
                drunkard_pos.y = drunkard_pos.y + 1;
            }
            if !map.in_bounds(drunkard_pos) {
                break;
            }
            distance_staggered = distance_staggered + 1;
            if distance_staggered >= STAGGER_DIST {
                break;
            }
        }
    }

    /// Whether a cave has enough floor: at least `DESIRED_FLOOR` tiles.
    pub fn is_complete(map: &GameMap) -> (b: bool)
        ensures
            b == (floor_count(map.tiles@) >= DESIRED_FLOOR),
    {
        let ghost tiles = map.tiles@;
        let mut count: usize = 0;
        let mut i: usize = 0;
        while i < map.tiles.len()
            invariant
                tiles == map.tiles@,
                i <= tiles.len(),
                count == floor_count(tiles.take(i as int)),
                count <= i,
            decreases tiles.len() - i,
        {
            let t = map.tiles[i];
            proof {
                let next = tiles.take(i + 1);
                assert(next.drop_last() =~= tiles.take(i as int));
                assert(next.last() == t);
                assert(floor_count(next) == floor_count(tiles.take(i as int)) + (if t == TileType::Floor { 1nat } else { 0 }));
            }
            if t == TileType::Floor {
                count = count + 1;
            }
            i += 1;
        }
        proof {
            assert(tiles.take(tiles.len() as int) =~= tiles);
        }
        count >= DESIRED_FLOOR
    }

    /// A random point of the map, where the next miner starts.
    pub fn random_start(rng: &mut RandomNumberGenerator) -> (p: Point)
        ensures
            spec_in_bounds(p),
    {
        let x = rng_range(rng, 0, SCREEN_WIDTH);
        let y = rng_range(rng, 0, SCREEN_HEIGHT);
        Point::new(x, y)
    }

    /// Turns into wall every tile marked as too far from the cave's centre
    /// (unreachable from it); the other tiles stay.
    pub fn wall_off(map: &mut GameMap, too_far: &Vec<bool>)
        requires
            old(map).wf(),
            too_far.len() <= NUM_TILES,
        ensures
            final(map).wf(),
            final(map).revealed_tiles == old(map).revealed_tiles,
            final(map).key_carried == old(map).key_carried,
            final(map).spawned_points == old(map).spawned_points,
            final(map).prefab_indices == old(map).prefab_indices,
            forall|i: int| 0 <= i < NUM_TILES ==> #[trigger] final(map).tiles@[i] == (if i < too_far.len() && too_far@[i] {
                TileType::Wall
            } else {
                old(map).tiles@[i]
            }),
    {
        let mut i: usize = 0;
        while i < too_far.len()
            invariant
                i <= too_far.len(),
                too_far.len() <= NUM_TILES,
                map.wf(),
                map.revealed_tiles == old(map).revealed_tiles,
                map.key_carried == old(map).key_carried,
                map.spawned_points == old(map).spawned_points,
                map.prefab_indices == old(map).prefab_indices,
                forall|k: int| 0 <= k < NUM_TILES ==> #[trigger] map.tiles@[k] == (if k < i && too_far@[k] {
                    TileType::Wall
                } else {
                    old(map).tiles@[k]
                }),
            decreases too_far.len() - i,
        {
            if too_far[i] {
                map.tiles.set(i, TileType::Wall);
            }
            i += 1;
        }
    }
}

} // verus!
