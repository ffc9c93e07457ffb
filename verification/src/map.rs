//! The tile map: a fixed grid of tiles, stored row by row.

use vstd::prelude::*;
use crate::geometry::{Point, NUM_TILES, SCREEN_HEIGHT, SCREEN_WIDTH};

verus! {

/// What occupies one tile of the map.
#[derive(Clone, Copy, Debug, PartialEq, Eq, Structural)]
pub enum TileType {
    Wall,
    Floor,
    PoisonFloor,
    Decorative,
    OtherDecorative,
    Door,
    Exit,
}

/// Whether a mover may step onto a tile of this type; doors open only with a key.
pub open spec fn tile_enterable(t: TileType, key_carried: bool) -> bool {
    ||| t == TileType::Floor
    ||| t == TileType::PoisonFloor
    ||| t == TileType::Exit
    ||| (t == TileType::Door && key_carried)
}

/// The index that the row-by-row layout gives to the coordinates `(x, y)`.
pub open spec fn spec_map_idx(x: int, y: int) -> int {
    y * SCREEN_WIDTH + x
}

/// Whether a point's row-by-row index lands inside the map's grids (the point
/// itself may lie off the map, wrapping to the next or previous row).
pub open spec fn spec_index_in_map(p: Point) -> bool {
    &&& i32::MIN <= p.y * SCREEN_WIDTH <= i32::MAX
    &&& 0 <= spec_map_idx(p.x as int, p.y as int) < NUM_TILES
}

/// Whether a point lies on the map.
pub open spec fn spec_in_bounds(p: Point) -> bool {
    0 <= p.x < SCREEN_WIDTH && 0 <= p.y < SCREEN_HEIGHT
}

/// The point that the row-by-row layout stores at index `idx`; a row number
/// that does not fit the coordinate type becomes 0.
pub open spec fn spec_index_to_point(idx: usize) -> Point {
    Point {
        x: (idx % (SCREEN_WIDTH as usize)) as i32,
        y: if idx / (SCREEN_WIDTH as usize) <= i32::MAX {
            (idx / (SCREEN_WIDTH as usize)) as i32
        } else {
            0
        },
    }
}

/// The offsets to the four neighbours of a tile, in the order west, east, north, south.
pub open spec fn spec_neighbour_delta(k: int) -> Point {
    if k == 0 {
        Point { x: -1i32, y: 0 }
    } else if k == 1 {
        Point { x: 1, y: 0 }
    } else if k == 2 {
        Point { x: 0, y: -1i32 }
    } else {
        Point { x: 0, y: 1 }
    }
}

/// Index into the row-by-row layout. The result is the sum converted to
/// `usize`, so a negative sum wraps around.
pub fn map_idx(x: i32, y: i32) -> (idx: usize)
    requires
        i32::MIN <= y * SCREEN_WIDTH <= i32::MAX,
        i32::MIN <= spec_map_idx(x as int, y as int) <= i32::MAX,
    ensures
        idx == #[verifier::truncate] ((y * SCREEN_WIDTH + x) as usize),
        0 <= spec_map_idx(x as int, y as int) ==> idx == spec_map_idx(x as int, y as int),
{
    #[verifier::truncate] (((y * SCREEN_WIDTH) + x) as usize)
}

/// Whether a point's row-by-row index can be computed in `i32` and is not
/// negative (what [`GameMap::point2d_to_index`] requires).
pub open spec fn spec_index_fits(p: Point) -> bool {
    &&& i32::MIN <= p.y * SCREEN_WIDTH <= i32::MAX
    &&& 0 <= spec_map_idx(p.x as int, p.y as int) <= i32::MAX
}

/// Whether a point's row-by-row index can be computed in `i32` and is not negative.
pub fn index_fits(p: Point) -> (b: bool)
    ensures
        b == spec_index_fits(p),
{
    let row: i64 = p.y as i64 * SCREEN_WIDTH as i64;
    assert(-171798691840 <= row <= 171798691760) by (nonlinear_arith)
        requires
            row == p.y * 80,
            i32::MIN <= p.y <= i32::MAX,
    ;
    let idx: i64 = row + p.x as i64;
    row >= i32::MIN as i64 && row <= i32::MAX as i64 && idx >= 0 && idx <= i32::MAX as i64
}

/// Whether a point's row-by-row index lands inside the map's grids.
pub fn index_in_map(p: Point) -> (b: bool)
    ensures
        b == spec_index_in_map(p),
{
    let row: i64 = p.y as i64 * SCREEN_WIDTH as i64;
    assert(-171798691840 <= row <= 171798691760) by (nonlinear_arith)
        requires
            row == p.y * 80,
            i32::MIN <= p.y <= i32::MAX,
    ;
    let idx: i64 = row + p.x as i64;
    row >= i32::MIN as i64 && row <= i32::MAX as i64 && idx >= 0 && idx < NUM_TILES as i64
}

/// The game map.
pub struct GameMap {
    pub tiles: Vec<TileType>,
    pub revealed_tiles: Vec<bool>,
    pub key_carried: bool,
    /// Indices of the tiles where entities were spawned.
    pub spawned_points: Vec<usize>,
    /// Indices of the tiles that lie inside a prefabricated structure.
    pub prefab_indices: Vec<usize>,
}

impl GameMap {
    /// Both grids cover the whole map.
    pub open spec fn wf(&self) -> bool {
        &&& self.tiles.len() == NUM_TILES
        &&& self.revealed_tiles.len() == NUM_TILES
    }

    /// The tile under a point of the map.
    pub open spec fn tile_at(&self, p: Point) -> TileType {
        self.tiles@[spec_map_idx(p.x as int, p.y as int)]
    }

    /// Whether a mover may step onto a point.
    pub open spec fn spec_can_enter(&self, p: Point) -> bool {
        spec_in_bounds(p) && tile_enterable(self.tile_at(p), self.key_carried)
    }

    /// The tile index reached from `loc` by `delta`, where a mover may step.
    pub open spec fn spec_valid_exit(&self, loc: Point, delta: Point) -> Option<usize> {
        let d = loc.spec_plus(delta);
        if self.spec_can_enter(d) {
            Some(spec_map_idx(d.x as int, d.y as int) as usize)
        } else {
            None
        }
    }

    /// The exits of a tile: the enterable neighbours, west, east, north, south.
    pub open spec fn spec_exits(&self, idx: usize) -> Seq<usize> {
        let loc = spec_index_to_point(idx);
        self.exit_part(loc, 0) + self.exit_part(loc, 1) + self.exit_part(loc, 2)
            + self.exit_part(loc, 3)
    }

    /// The exit towards the `k`-th neighbour of `loc`, as a sequence of at most one index.
    pub open spec fn exit_part(&self, loc: Point, k: int) -> Seq<usize> {
        match self.spec_valid_exit(loc, spec_neighbour_delta(k)) {
            Some(i) => seq![i],
            None => Seq::<usize>::empty(),
        }
    }

    /// A map of floor tiles, nothing revealed, no key, no spawns and no structures.
    pub fn new() -> (m: GameMap)
        ensures
            m.wf(),
            forall|i: int| 0 <= i < NUM_TILES ==> m.tiles@[i] == TileType::Floor,
            forall|i: int| 0 <= i < NUM_TILES ==> !m.revealed_tiles@[i],
            !m.key_carried,
            m.spawned_points@ == Seq::<usize>::empty(),
            m.prefab_indices@ == Seq::<usize>::empty(),
    {
        GameMap {
            tiles: vec![TileType::Floor; NUM_TILES],
            revealed_tiles: vec![false; NUM_TILES],
            key_carried: false,
            spawned_points: Vec::new(),
            prefab_indices: Vec::new(),
        }
    }

    pub fn in_bounds(&self, point: Point) -> (b: bool)
        ensures
            b == spec_in_bounds(point),
    {
        point.x >= 0 && point.x < SCREEN_WIDTH && point.y >= 0 && point.y < SCREEN_HEIGHT
    }

    pub fn can_enter_tile(&self, point: Point) -> (b: bool)
        requires
            self.wf(),
        ensures
            b == self.spec_can_enter(point),
    {
        if !self.in_bounds(point) {
            return false;
        }
        let t = self.tiles[map_idx(point.x, point.y)];
        t == TileType::Floor || t == TileType::PoisonFloor || t == TileType::Exit || (t
            == TileType::Door && self.key_carried)
    }

    pub fn try_idx(&self, point: Point) -> (r: Option<usize>)
        ensures
            r == (if spec_in_bounds(point) {
                Some(spec_map_idx(point.x as int, point.y as int) as usize)
            } else {
                None
            }),
    {
        if !self.in_bounds(point) {
            None
        } else {
            Some(map_idx(point.x, point.y))
        }
    }

    /// The size of the map, as a point.
    pub fn dimensions(&self) -> (p: Point)
        ensures
            p.x == SCREEN_WIDTH,
            p.y == SCREEN_HEIGHT,
    {
        Point::new(SCREEN_WIDTH, SCREEN_HEIGHT)
    }

    /// Index of a point in the row-by-row layout; the point must not lie
    /// before the first tile.
    pub fn point2d_to_index(&self, pt: Point) -> (idx: usize)
        requires
            i32::MIN <= pt.y * SCREEN_WIDTH <= i32::MAX,
            0 <= spec_map_idx(pt.x as int, pt.y as int) <= i32::MAX,
        ensures
            idx == spec_map_idx(pt.x as int, pt.y as int),
    {
        ((pt.y * SCREEN_WIDTH) + pt.x) as usize
    }

    /// The point stored at an index of the row-by-row layout.
    pub fn index_to_point2d(&self, idx: usize) -> (p: Point)
        ensures
            p == spec_index_to_point(idx),
    {
        let w: usize = SCREEN_WIDTH as usize;
        let row = idx / w;
        let y: i32 = if row <= 2147483647usize { row as i32 } else { 0 };
        Point::new((idx % w) as i32, y)
    }

    /// The tile index reached from `loc` by `delta`, if a mover may step there.
    pub fn valid_exit(&self, loc: Point, delta: Point) -> (r: Option<usize>)
        requires
            self.wf(),
            loc.can_add(delta),
        ensures
            r == self.spec_valid_exit(loc, delta),
    {
        let destination = loc.plus(delta);
        if self.in_bounds(destination) {
            if self.can_enter_tile(destination) {
                let idx = self.point2d_to_index(destination);
                Some(idx)
            } else {
                None
            }
        } else {
            None
        }
    }

    /// The tiles that a path may take next from `idx`: each enterable
    /// neighbour, in the order west, east, north, south. (Every step costs 1.)
    pub fn get_available_exits(&self, idx: usize) -> (exits: Vec<usize>)
        requires
            self.wf(),
            spec_index_to_point(idx).y < i32::MAX,
        ensures
            exits@ == self.spec_exits(idx),
    {
        let mut exits: Vec<usize> = Vec::new();
        let location = self.index_to_point2d(idx);
        if let Some(i) = self.valid_exit(location, Point::new(-1, 0)) {
            exits.push(i);
        }
        assert(exits@ =~= self.exit_part(location, 0));
        if let Some(i) = self.valid_exit(location, Point::new(1, 0)) {
            exits.push(i);
        }
        assert(exits@ =~= self.exit_part(location, 0) + self.exit_part(location, 1));
        if let Some(i) = self.valid_exit(location, Point::new(0, -1)) {
            exits.push(i);
        }
        assert(exits@ =~= self.exit_part(location, 0) + self.exit_part(location, 1) + self.exit_part(location, 2));
        if let Some(i) = self.valid_exit(location, Point::new(0, 1)) {
            exits.push(i);
        }
        assert(exits@ =~= self.exit_part(location, 0) + self.exit_part(location, 1) + self.exit_part(location, 2) + self.exit_part(location, 3));
        exits
    }

    /// Whether a tile blocks sight: every tile but floor and poison floor does.
    pub fn is_opaque(&self, idx: usize) -> (b: bool)
        requires
            idx < self.tiles.len(),
        ensures
            b == (self.tiles@[idx as int] != TileType::Floor && self.tiles@[idx as int]
                != TileType::PoisonFloor),
    {
        self.tiles[idx] != TileType::Floor && self.tiles[idx] != TileType::PoisonFloor
    }
}

} // verus!
