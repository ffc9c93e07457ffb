//! Prefabricated structures (vaults) stamped into a generated map.
//!
//! Each structure is a grid of cells, given row by row: `-` floor, `#` wall,
//! `M` floor where a monster spawns, `y` poison floor, `d` one of the two
//! decorative tiles (chosen at random), `D` a door.

use vstd::prelude::*;
use bracket_lib::prelude::RandomNumberGenerator;
use crate::bracket::rng_range;
use crate::geometry::{Point, NUM_TILES, SCREEN_HEIGHT, SCREEN_WIDTH};
use crate::map::{spec_map_idx, GameMap, TileType};

verus! {

/// A prefabricated structure: its cells, row by row, and its size.
#[derive(Clone, Copy, Debug)]
pub struct Prefab {
    pub cells: &'static str,
    pub width: i32,
    pub height: i32,
}

/// A structure's cells fill its rectangle, and it fits on the map with room to spare.
pub open spec fn prefab_ok(p: Prefab) -> bool {
    &&& 0 < p.width < SCREEN_WIDTH
    &&& 0 < p.height < SCREEN_HEIGHT
    &&& p.cells@.len() == p.width * p.height
}

/// The character of the cell in row `r`, column `c`.
pub open spec fn cell_char(p: Prefab, r: int, c: int) -> char {
    p.cells@[r * p.width + c]
}

/// The map index of the cell in row `r`, column `c`, when the structure's
/// top-left corner is at `at`.
pub open spec fn cell_index(at: Point, r: int, c: int) -> int {
    spec_map_idx(at.x + c, at.y + r)
}

/// Whether a cell of character `ch` turns a tile `before` into `after`.
pub open spec fn cell_ok(ch: char, before: TileType, after: TileType) -> bool {
    if ch == 'M' || ch == '-' {
        after == TileType::Floor
    } else if ch == '#' {
        after == TileType::Wall
    } else if ch == 'y' {
        after == TileType::PoisonFloor
    } else if ch == 'd' {
        after == TileType::Decorative || after == TileType::OtherDecorative
    } else if ch == 'D' {
        after == TileType::Door
    } else {
        after == before
    }
}

/// The monster spawns of the first `c` cells of row `r`.
pub open spec fn row_marks(p: Prefab, at: Point, r: int, c: int) -> Seq<Point>
    decreases c,
{
    if c <= 0 {
        Seq::empty()
    } else {
        row_marks(p, at, r, c - 1) + (if cell_char(p, r, c - 1) == 'M' {
            seq![Point { x: (at.x + c - 1) as i32, y: (at.y + r) as i32 }]
        } else {
            Seq::empty()
        })
    }
}

/// The monster spawns of the first `r` rows.
pub open spec fn rows_marks(p: Prefab, at: Point, r: int) -> Seq<Point>
    decreases r,
{
    if r <= 0 {
        Seq::empty()
    } else {
        rows_marks(p, at, r - 1) + row_marks(p, at, r - 1, p.width as int)
    }
}

/// The inner indices (in neither the first nor the last row or column of a
/// structure `w` wide and `h` high) of the first `c` cells of row `r`.
pub open spec fn row_inner(at: Point, w: int, h: int, r: int, c: int) -> Seq<usize>
    decreases c,
{
    if c <= 0 {
        Seq::empty()
    } else {
        row_inner(at, w, h, r, c - 1) + (if 0 < r < h - 1 && 0 < c - 1 < w - 1 {
            seq![cell_index(at, r, c - 1) as usize]
        } else {
            Seq::empty()
        })
    }
}

/// The inner indices of the first `r` rows of a structure `w` wide and `h` high.
pub open spec fn rows_inner(at: Point, w: int, h: int, r: int) -> Seq<usize>
    decreases r,
{
    if r <= 0 {
        Seq::empty()
    } else {
        rows_inner(at, w, h, r - 1) + row_inner(at, w, h, r - 1, w)
    }
}

/// Whether a structure at `at` lies within the map.
pub open spec fn placed_on_map(p: Prefab, at: Point) -> bool {
    &&& 0 <= at.x
    &&& at.x + p.width <= SCREEN_WIDTH
    &&& 0 <= at.y
    &&& at.y + p.height <= SCREEN_HEIGHT
}

/// Whether the map index `i` is that of a cell of the structure at `at`.
pub open spec fn covers(p: Prefab, at: Point, i: int) -> bool {
    exists|r: int, c: int| 0 <= r < p.height && 0 <= c < p.width && cell_index(at, r, c) == i
}

/// Whether the tile at `(x, y)` is reachable, but not too near: its path
/// distance from the player's start lies strictly between 20 and 2000.
pub open spec fn tile_placeable(distances: Seq<u32>, x: int, y: int) -> bool {
    let d = distances[spec_map_idx(x, y)];
    20 < d < 2000
}

/// Whether a structure may be placed at `at`: its rectangle holds a
/// reachable tile (see [`tile_placeable`]), and neither the player's start
/// nor the goal lies in it.
pub open spec fn placeable(p: Prefab, at: Point, distances: Seq<u32>, player_start: Point, goal: Point) -> bool {
    &&& exists|r: int, c: int|
        0 <= r < p.height && 0 <= c < p.width && #[trigger] tile_placeable(distances, at.x + c, at.y + r)
    &&& !in_rect(p, at, player_start)
    &&& !in_rect(p, at, goal)
}

/// Whether a point lies in the rectangle of a structure at `at`.
pub open spec fn in_rect(p: Prefab, at: Point, q: Point) -> bool {
    at.x <= q.x < at.x + p.width && at.y <= q.y < at.y + p.height
}

/// The points of `s` outside the rectangle of a structure at `at`, in order.
pub open spec fn outside_rect(p: Prefab, at: Point, s: Seq<Point>) -> Seq<Point>
    decreases s.len(),
{
    if s.len() == 0 {
        Seq::empty()
    } else {
        outside_rect(p, at, s.drop_last()) + (if in_rect(p, at, s.last()) { Seq::empty() } else { seq![s.last()] })
    }
}

/// The structure that a roll selects: one of the nine layouts for a roll
/// from 0 to 7, the last layout for any other roll.
pub open spec fn prefab_table(roll: i32) -> Prefab {
    match roll {
        0 => Prefab {
            cells: "---------------######------d----#------#-M--#----###--y-###--D--M-y---D--###--yy###----#----#------#--M-#------###d##---------------",
            width: 12,
            height: 11,
        },
        1 => Prefab {
            cells: "--------------###########--#-#--y--#M#--#---d-#-y-#--D-#-#M#-y-#--#-#y#-##d##--#-#-#-#---#--#d###---#-#--#M-y--#-#-#--#########D#--------------",
            width: 13,
            height: 11,
        },
        2 => Prefab {
            cells: "------------------#######D#######--##y------y--###--###-d#-##-#-###--###-#####-#####--##-y---M--##d##--##-########y-##--##-##---#-----#--#M-y--#---###M#--###dd##D#######------------------",
            width: 17,
            height: 11,
        },
        3 => Prefab {
            cells: "------------d#D#D#D##--#--#-#-M#--#-#---#-#--#y-yyy-yd--#---M---#--#---M---#--##d#-####--#y#-y-#y#--#M-#-#--#--##D#D#D##------------",
            width: 11,
            height: 12,
        },
        4 => Prefab {
            cells: "---------------###d##------#----#------#-M--#----#d#y--y###--D---##---D--###y--y#d#----#----#------d-M--d------######---------------",
            width: 12,
            height: 11,
        },
        5 => Prefab {
            cells: "--------------#####d#####--#-#-----#M#--#-M-#y#---#--D-#-#y#---#--#-#-#y###d#--#-#-#y#---#--##d##---#-#--#---M-#-#-#--d########D#--------------",
            width: 13,
            height: 11,
        },
        6 => Prefab {
            cells: "------------------##d###d####D###--##-M-----y--###--###-d#-##-#-###--d##y#####-#####--##-yy--M--##d##--d#-########yy##--##-##---#--M--#--#M-y--#---d##M#--###d#####D#####------------------",
            width: 17,
            height: 11,
        },
        7 => Prefab {
            cells: "------------##D#D#D##--#--#y#-M#--#y#---#y#--#---d---#--#--ddd--#--#M-----M#--####-####--#-#---#-#--#M-#-#--#--##D#D#D##------------",
            width: 11,
            height: 12,
        },
        _ => Prefab {
            cells: "-------------####DD####--#d-#--#-##--#M-D--D-M#--##-#--#-##--####yy#d##--###d--####--####yy#d##--#M-D--D-M#--##d#--####--####DD####-------------",
            width: 12,
            height: 12,
        },
    }
}

/// The structure that a roll from 0 to 8 selects.
pub fn prefab_by_roll(roll: i32) -> (p: Prefab)
    ensures
        p == prefab_table(roll),
        prefab_ok(p),
{
    proof {
        reveal_strlit("---------------######------d----#------#-M--#----###--y-###--D--M-y---D--###--yy###----#----#------#--M-#------###d##---------------");
        reveal_strlit("---------------###d##------#----#------#-M--#----#d#y--y###--D---##---D--###y--y#d#----#----#------d-M--d------######---------------");
        reveal_strlit("--------------###########--#-#--y--#M#--#---d-#-y-#--D-#-#M#-y-#--#-#y#-##d##--#-#-#-#---#--#d###---#-#--#M-y--#-#-#--#########D#--------------");
        reveal_strlit("--------------#####d#####--#-#-----#M#--#-M-#y#---#--D-#-#y#---#--#-#-#y###d#--#-#-#y#---#--##d##---#-#--#---M-#-#-#--d########D#--------------");
        reveal_strlit("------------------#######D#######--##y------y--###--###-d#-##-#-###--###-#####-#####--##-y---M--##d##--##-########y-##--##-##---#-----#--#M-y--#---###M#--###dd##D#######------------------");
        reveal_strlit("------------------##d###d####D###--##-M-----y--###--###-d#-##-#-###--d##y#####-#####--##-yy--M--##d##--d#-########yy##--##-##---#--M--#--#M-y--#---d##M#--###d#####D#####------------------");
        reveal_strlit("------------d#D#D#D##--#--#-#-M#--#-#---#-#--#y-yyy-yd--#---M---#--#---M---#--##d#-####--#y#-y-#y#--#M-#-#--#--##D#D#D##------------");
        reveal_strlit("------------##D#D#D##--#--#y#-M#--#y#---#y#--#---d---#--#--ddd--#--#M-----M#--####-####--#-#---#-#--#M-#-#--#--##D#D#D##------------");
        reveal_strlit("-------------####DD####--#d-#--#-##--#M-D--D-M#--##-#--#-##--####yy#d##--###d--####--####yy#d##--#M-D--D-M#--##d#--####--####DD####-------------");
    }
    match roll {
        0 => Prefab {
            cells: "---------------######------d----#------#-M--#----###--y-###--D--M-y---D--###--yy###----#----#------#--M-#------###d##---------------",
            width: 12,
            height: 11,
        },
        1 => Prefab {
            cells: "--------------###########--#-#--y--#M#--#---d-#-y-#--D-#-#M#-y-#--#-#y#-##d##--#-#-#-#---#--#d###---#-#--#M-y--#-#-#--#########D#--------------",
            width: 13,
            height: 11,
        },
        2 => Prefab {
            cells: "------------------#######D#######--##y------y--###--###-d#-##-#-###--###-#####-#####--##-y---M--##d##--##-########y-##--##-##---#-----#--#M-y--#---###M#--###dd##D#######------------------",
            width: 17,
            height: 11,
        },
        3 => Prefab {
            cells: "------------d#D#D#D##--#--#-#-M#--#-#---#-#--#y-yyy-yd--#---M---#--#---M---#--##d#-####--#y#-y-#y#--#M-#-#--#--##D#D#D##------------",
            width: 11,
            height: 12,
        },
        4 => Prefab {
            cells: "---------------###d##------#----#------#-M--#----#d#y--y###--D---##---D--###y--y#d#----#----#------d-M--d------######---------------",
            width: 12,
            height: 11,
        },
        5 => Prefab {
            cells: "--------------#####d#####--#-#-----#M#--#-M-#y#---#--D-#-#y#---#--#-#-#y###d#--#-#-#y#---#--##d##---#-#--#---M-#-#-#--d########D#--------------",
            width: 13,
            height: 11,
        },
        6 => Prefab {
            cells: "------------------##d###d####D###--##-M-----y--###--###-d#-##-#-###--d##y#####-#####--##-yy--M--##d##--d#-########yy##--##-##---#--M--#--#M-y--#---d##M#--###d#####D#####------------------",
            width: 17,
            height: 11,
        },
        7 => Prefab {
            cells: "------------##D#D#D##--#--#y#-M#--#y#---#y#--#---d---#--#--ddd--#--#M-----M#--####-####--#-#---#-#--#M-#-#--#--##D#D#D##------------",
            width: 11,
            height: 12,
        },
        _ => Prefab {
            cells: "-------------####DD####--#d-#--#-##--#M-D--D-M#--##-#--#-##--####yy#d##--###d--####--####yy#d##--#M-D--D-M#--##d#--####--####DD####-------------",
            width: 12,
            height: 12,
        },
    }
}

proof fn lemma_cell_in_range(p: Prefab, r: int, c: int)
    requires
        prefab_ok(p),
        0 <= r < p.height,
        0 <= c < p.width,
    ensures
        0 <= r * p.width + c < p.cells@.len(),
        r * p.width + c < SCREEN_WIDTH * SCREEN_HEIGHT,
{
    let w = p.width as int;
    let h = p.height as int;
    assert(0 <= r * w + c < w * h) by (nonlinear_arith)
        requires
            0 <= r < h,
            0 <= c < w,
    ;
    assert(w * h < SCREEN_WIDTH * SCREEN_HEIGHT) by (nonlinear_arith)
        requires
            0 < w < SCREEN_WIDTH,
            0 < h < SCREEN_HEIGHT,
    ;
}

proof fn lemma_cell_index_injective(p: Prefab, at: Point, r1: int, c1: int, r2: int, c2: int)
    requires
        placed_on_map(p, at),
        0 <= r1 < p.height,
        0 <= c1 < p.width,
        0 <= r2 < p.height,
        0 <= c2 < p.width,
        cell_index(at, r1, c1) == cell_index(at, r2, c2),
    ensures
        r1 == r2,
        c1 == c2,
{
}

/// The character of the cell in row `r`, column `c`.
fn get_cell(p: &Prefab, r: i32, c: i32) -> (ch: char)
    requires
        prefab_ok(*p),
        0 <= r < p.height,
        0 <= c < p.width,
    ensures
        ch == cell_char(*p, r as int, c as int),
{
    proof {
        lemma_cell_in_range(*p, r as int, c as int);
    }
    p.cells.get_char((r * p.width + c) as usize)
}

/// Stamps a structure into the map with its top-left corner at `at`: every
/// cell sets its tile (a decorative cell picks one of the two decorative
/// tiles at random), each `M` cell adds a monster spawn, and every cell in
/// neither the first nor the last row or column is recorded as inside a
/// structure. No other tile changes.
pub fn stamp_prefab(
    map: &mut GameMap,
    monster_spawns: &mut Vec<Point>,
    p: &Prefab,
    at: Point,
    rng: &mut RandomNumberGenerator,
)
    requires
        old(map).wf(),
        prefab_ok(*p),
        placed_on_map(*p, at),
    ensures
        final(map).wf(),
        final(map).revealed_tiles == old(map).revealed_tiles,
        final(map).key_carried == old(map).key_carried,
        final(map).spawned_points == old(map).spawned_points,
        forall|r: int, c: int|
            0 <= r < p.height && 0 <= c < p.width ==> cell_ok(
                #[trigger] cell_char(*p, r, c),
                old(map).tiles@[cell_index(at, r, c)],
                final(map).tiles@[cell_index(at, r, c)],
            ),
        forall|i: int| 0 <= i < NUM_TILES && !covers(*p, at, i) ==> #[trigger] final(map).tiles@[i] == old(map).tiles@[i],
        final(monster_spawns)@ == old(monster_spawns)@ + rows_marks(*p, at, p.height as int),
        final(map).prefab_indices@ == old(map).prefab_indices@ + rows_inner(at, p.width as int, p.height as int, p.height as int),
{
    let ghost old_tiles = map.tiles@;
    let ghost old_spawns = monster_spawns@;
    let ghost old_inner = map.prefab_indices@;
    let mut row: i32 = 0;
    while row < p.height
        invariant
            0 <= row <= p.height,
            prefab_ok(*p),
            placed_on_map(*p, at),
            map.wf(),
            map.revealed_tiles == old(map).revealed_tiles,
            map.key_carried == old(map).key_carried,
            map.spawned_points == old(map).spawned_points,
            old_tiles == old(map).tiles@,
            old_spawns == old(monster_spawns)@,
            old_inner == old(map).prefab_indices@,
            forall|r: int, c: int|
                0 <= r < row && 0 <= c < p.width ==> cell_ok(
                    #[trigger] cell_char(*p, r, c),
                    old_tiles[cell_index(at, r, c)],
                    map.tiles@[cell_index(at, r, c)],
                ),
            forall|i: int|
                0 <= i < NUM_TILES && !(exists|r: int, c: int|
                    0 <= r < row && 0 <= c < p.width && cell_index(at, r, c) == i) ==> #[trigger] map.tiles@[i]
                    == old_tiles[i],
            monster_spawns@ == old_spawns + rows_marks(*p, at, row as int),
            map.prefab_indices@ == old_inner + rows_inner(at, p.width as int, p.height as int, row as int),
        decreases p.height - row,
    {
        let mut col: i32 = 0;
        while col < p.width
            invariant
                0 <= row < p.height,
                0 <= col <= p.width,
                prefab_ok(*p),
                placed_on_map(*p, at),
                map.wf(),
                map.revealed_tiles == old(map).revealed_tiles,
                map.key_carried == old(map).key_carried,
                map.spawned_points == old(map).spawned_points,
                forall|r: int, c: int|
                    ((0 <= r < row && 0 <= c < p.width) || (r == row && 0 <= c < col)) ==> cell_ok(
                        #[trigger] cell_char(*p, r, c),
                        old_tiles[cell_index(at, r, c)],
                        map.tiles@[cell_index(at, r, c)],
                    ),
                forall|i: int|
                    0 <= i < NUM_TILES && !(exists|r: int, c: int|
                        ((0 <= r < row && 0 <= c < p.width) || (r == row && 0 <= c < col)) && cell_index(at, r, c)
                            == i) ==> #[trigger] map.tiles@[i] == old_tiles[i],
                monster_spawns@ == old_spawns + rows_marks(*p, at, row as int) + row_marks(*p, at, row as int, col as int),
                map.prefab_indices@ == old_inner + rows_inner(at, p.width as int, p.height as int, row as int) + row_inner(at, p.width as int, p.height as int,
                    row as int,
                    col as int,
                ),
            decreases p.width - col,
        {
            let tx = at.x + col;
            let ty = at.y + row;
            let idx = map.point2d_to_index(Point::new(tx, ty));
            let ch = get_cell(p, row, col);
            let ghost before = map.tiles@;
            if ch == 'M' {
                map.tiles.set(idx, TileType::Floor);
                monster_spawns.push(Point::new(tx, ty));
            } else if ch == '-' {
                map.tiles.set(idx, TileType::Floor);
            } else if ch == '#' {
                map.tiles.set(idx, TileType::Wall);
            } else if ch == 'y' {
                map.tiles.set(idx, TileType::PoisonFloor);
            } else if ch == 'd' {
                if rng_range(rng, 0, 2) == 0 {
                    map.tiles.set(idx, TileType::Decorative);
                } else {
                    map.tiles.set(idx, TileType::OtherDecorative);
                }
            } else if ch == 'D' {
                map.tiles.set(idx, TileType::Door);
            }
            if row > 0 && row < p.height - 1 && col > 0 && col < p.width - 1 {
                map.prefab_indices.push(idx);
            }
            proof {
                assert(idx == cell_index(at, row as int, col as int));
                assert forall|r: int, c: int|
                    ((0 <= r < row && 0 <= c < p.width) || (r == row && 0 <= c < col + 1)) implies cell_ok(
                        #[trigger] cell_char(*p, r, c),
                        old_tiles[cell_index(at, r, c)],
                        map.tiles@[cell_index(at, r, c)],
                    ) by {
                    if r == row && c == col {
                        if !(exists|r2: int, c2: int|
                            ((0 <= r2 < row && 0 <= c2 < p.width) || (r2 == row && 0 <= c2 < col)) && cell_index(at, r2, c2)
                                == idx) {
                            assert(before[idx as int] == old_tiles[idx as int]);
                        } else {
                            let (r2, c2) = choose|r2: int, c2: int|
                                ((0 <= r2 < row && 0 <= c2 < p.width) || (r2 == row && 0 <= c2 < col)) && cell_index(at, r2, c2)
                                    == idx;
                            lemma_cell_index_injective(*p, at, r2, c2, row as int, col as int);
                        }
                    } else {
                        if cell_index(at, r, c) == idx as int {
                            lemma_cell_index_injective(*p, at, r, c, row as int, col as int);
                        }
                    }
                }
                assert forall|i: int|
                    0 <= i < NUM_TILES && !(exists|r: int, c: int|
                        ((0 <= r < row && 0 <= c < p.width) || (r == row && 0 <= c < col + 1)) && cell_index(at, r, c)
                            == i) implies #[trigger] map.tiles@[i] == old_tiles[i] by {
                    if i == idx as int {
                        assert(cell_index(at, row as int, col as int) == i);
                    }
                    if exists|r: int, c: int|
                        ((0 <= r < row && 0 <= c < p.width) || (r == row && 0 <= c < col)) && cell_index(at, r, c) == i {
                        let (r2, c2) = choose|r: int, c: int|
                            ((0 <= r < row && 0 <= c < p.width) || (r == row && 0 <= c < col)) && cell_index(at, r, c) == i;
                        assert(((0 <= r2 < row && 0 <= c2 < p.width) || (r2 == row && 0 <= c2 < col + 1)) && cell_index(at, r2, c2) == i);
                    }
                }
                assert(row_marks(*p, at, row as int, col + 1) == row_marks(*p, at, row as int, col as int) + (if cell_char(*p, row as int, col as int) == 'M' {
                    seq![Point { x: (at.x + col) as i32, y: (at.y + row) as i32 }]
                } else {
                    Seq::<Point>::empty()
                }));
                assert(monster_spawns@ =~= old_spawns + rows_marks(*p, at, row as int) + row_marks(*p, at, row as int, col + 1));
                assert(map.prefab_indices@ =~= old_inner + rows_inner(at, p.width as int, p.height as int, row as int) + row_inner(at, p.width as int, p.height as int, row as int, col + 1));
            }
            col = col + 1;
        }
        proof {
            assert(monster_spawns@ =~= old_spawns + rows_marks(*p, at, row + 1));
            assert(map.prefab_indices@ =~= old_inner + rows_inner(at, p.width as int, p.height as int, row + 1));
            assert forall|i: int|
                0 <= i < NUM_TILES && !(exists|r: int, c: int|
                    0 <= r < row + 1 && 0 <= c < p.width && cell_index(at, r, c) == i) implies #[trigger] map.tiles@[i]
                    == old_tiles[i] by {
                if exists|r: int, c: int|
                    ((0 <= r < row && 0 <= c < p.width) || (r == row && 0 <= c < col)) && cell_index(at, r, c) == i {
                    let (r2, c2) = choose|r: int, c: int|
                        ((0 <= r < row && 0 <= c < p.width) || (r == row && 0 <= c < col)) && cell_index(at, r, c) == i;
                    assert(0 <= r2 < row + 1 && 0 <= c2 < p.width && cell_index(at, r2, c2) == i);
                }
            }
        }
        row = row + 1;
    }
}

/// `s` repeated `n` times.
pub open spec fn repeat<T>(s: Seq<T>, n: nat) -> Seq<T>
    decreases n,
{
    if n == 0 {
        Seq::empty()
    } else {
        repeat(s, (n - 1) as nat) + s
    }
}

/// Whether a structure at `at` may be placed (see [`placeable`]).
pub fn can_place(p: &Prefab, at: Point, distances: &Vec<u32>, player_start: Point, goal: Point) -> (b: bool)
    requires
        placed_on_map(*p, at),
        prefab_ok(*p),
        distances@.len() == NUM_TILES,
    ensures
        b == placeable(*p, at, distances@, player_start, goal),
{
    let mut can = false;
    let mut row: i32 = 0;
    while row < p.height
        invariant
            0 <= row <= p.height,
            placed_on_map(*p, at),
            prefab_ok(*p),
            distances@.len() == NUM_TILES,
            can <==> exists|r: int, c: int|
                0 <= r < row && 0 <= c < p.width && #[trigger] tile_placeable(distances@, at.x + c, at.y + r),
        decreases p.height - row,
    {
        let mut col: i32 = 0;
        while col < p.width
            invariant
                0 <= row < p.height,
                0 <= col <= p.width,
                placed_on_map(*p, at),
                prefab_ok(*p),
                distances@.len() == NUM_TILES,
                can <==> exists|r: int, c: int|
                    ((0 <= r < row && 0 <= c < p.width) || (r == row && 0 <= c < col))
                        && #[trigger] tile_placeable(distances@, at.x + c, at.y + r),
            decreases p.width - col,
        {
            let pt = Point::new(at.x + col, at.y + row);
            let idx = pt.y * SCREEN_WIDTH + pt.x;
            let distance = distances[idx as usize];
            if distance < 2000 && distance > 20 {
                can = true;
            }
            proof {
                assert(tile_placeable(distances@, at.x + col, at.y + row) == (distance < 2000 && distance > 20));
            }
            col = col + 1;
        }
        row = row + 1;
    }
    can && !rect_holds(p, at, player_start) && !rect_holds(p, at, goal)
}

/// Whether a point lies in the rectangle of a structure at `at`.
fn rect_holds(p: &Prefab, at: Point, q: Point) -> (b: bool)
    ensures
        b == in_rect(*p, at, q),
{
    at.x as i64 <= q.x as i64 && (q.x as i64) < at.x as i64 + p.width as i64 && at.y as i64 <= q.y as i64
        && (q.y as i64) < at.y as i64 + p.height as i64
}

/// The points of `s` outside the rectangle of a structure at `at`, in order.
pub fn points_outside(p: &Prefab, at: Point, s: &Vec<Point>) -> (out: Vec<Point>)
    ensures
        out@ == outside_rect(*p, at, s@),
{
    let mut out: Vec<Point> = Vec::new();
    let mut i: usize = 0;
    while i < s.len()
        invariant
            i <= s.len(),
            out@ == outside_rect(*p, at, s@.take(i as int)),
        decreases s.len() - i,
    {
        proof {
            assert(s@.take(i + 1).drop_last() =~= s@.take(i as int));
        }
        let q = s[i];
        let inside = rect_holds(p, at, q);
        if !inside {
            out.push(q);
        }
        proof {
            assert(out@ =~= outside_rect(*p, at, s@.take(i + 1)));
        }
        i += 1;
    }
    proof {
        assert(s@.take(s.len() as int) =~= s@);
    }
    out
}

/// What stamping structure `p` at `at`, `n` times, does to the tiles:
/// every cell obeys its character, and no other tile changes.
pub open spec fn stamped(p: Prefab, at: Point, before: Seq<TileType>, after: Seq<TileType>) -> bool {
    &&& forall|r: int, c: int|
        0 <= r < p.height && 0 <= c < p.width ==> cell_ok(
            #[trigger] cell_char(p, r, c),
            before[cell_index(at, r, c)],
            after[cell_index(at, r, c)],
        )
    &&& forall|i: int| 0 <= i < NUM_TILES && !covers(p, at, i) ==> #[trigger] after[i] == before[i]
}

/// A draw of the placing loop: the structure of a roll from 0 to 8, at a
/// position from which it fits on the map with room to spare.
pub open spec fn is_draw(p: Prefab, at: Point) -> bool {
    &&& exists|roll: i32| 0 <= roll < 9 && p == #[trigger] prefab_table(roll)
    &&& 0 <= at.x < SCREEN_WIDTH - p.width
    &&& 0 <= at.y < SCREEN_HEIGHT - p.height
}

/// Whether every one of `tries` is a draw whose rectangle holds no placeable tile.
pub open spec fn all_refused(tries: Seq<(Prefab, Point)>, distances: Seq<u32>, player_start: Point, goal: Point) -> bool {
    forall|i: int|
        #![trigger tries[i]]
        0 <= i < tries.len() ==> is_draw(tries[i].0, tries[i].1) && !placeable(
            tries[i].0,
            tries[i].1,
            distances,
            player_start,
            goal,
        )
}

/// Tries to place a prefabricated structure: up to 10 attempts each draw a
/// structure and a position at random, and take the first position whose
/// rectangle holds a placeable tile; the monster spawns inside the
/// rectangle are then dropped. A placed structure is stamped into the map
/// four times over (so its spawns and inner indices are recorded four times).
/// Nothing changes only when all ten draws are refused.
/// `distances` gives each tile's path distance from the player's start.
pub fn apply_prefab(
    map: &mut GameMap,
    monster_spawns: &mut Vec<Point>,
    player_start: Point,
    goal: Point,
    distances: &Vec<u32>,
    rng: &mut RandomNumberGenerator,
)
    requires
        old(map).wf(),
        distances@.len() == NUM_TILES,
    ensures
        final(map).wf(),
        final(map).revealed_tiles == old(map).revealed_tiles,
        final(map).key_carried == old(map).key_carried,
        final(map).spawned_points == old(map).spawned_points,
        (final(map).tiles@ == old(map).tiles@ && final(map).prefab_indices@ == old(map).prefab_indices@
            && final(monster_spawns)@ == old(monster_spawns)@ && exists|tries: Seq<(Prefab, Point)>|
            tries.len() == 10 && all_refused(tries, distances@, player_start, goal)) || exists|p: Prefab, at: Point|
            {
                &&& is_draw(p, at)
                &&& prefab_ok(p)
                &&& placed_on_map(p, at)
                &&& placeable(p, at, distances@, player_start, goal)
                &&& stamped(p, at, old(map).tiles@, final(map).tiles@)
                &&& final(monster_spawns)@ == outside_rect(p, at, old(monster_spawns)@) + repeat(
                    rows_marks(p, at, p.height as int),
                    4,
                )
                &&& final(map).prefab_indices@ == old(map).prefab_indices@ + repeat(
                    rows_inner(at, p.width as int, p.height as int, p.height as int),
                    4,
                )
            },
{
    let mut placement: Option<(Prefab, Point)> = None;
    let mut attempts: i32 = 0;
    let ghost mut tries: Seq<(Prefab, Point)> = Seq::empty();
    let mut round: i32 = 0;
    while round < 4
        invariant
            0 <= round <= 4,
            0 <= attempts <= 10,
            round == 0 ==> placement is None,
            round > 0 ==> (placement is Some || attempts >= 10),
            map.wf(),
            distances@.len() == NUM_TILES,
            map.revealed_tiles == old(map).revealed_tiles,
            map.key_carried == old(map).key_carried,
            map.spawned_points == old(map).spawned_points,
            placement is None ==> map.tiles@ == old(map).tiles@ && map.prefab_indices@ == old(map).prefab_indices@
                && monster_spawns@ == old(monster_spawns)@,
            placement is None ==> tries.len() == attempts && all_refused(tries, distances@, player_start, goal),
            placement matches Some((p, at)) ==> {
                &&& is_draw(p, at)
                &&& prefab_ok(p)
                &&& placed_on_map(p, at)
                &&& placeable(p, at, distances@, player_start, goal)
                &&& stamped(p, at, old(map).tiles@, map.tiles@)
                &&& monster_spawns@ == outside_rect(p, at, old(monster_spawns)@) + repeat(
                    rows_marks(p, at, p.height as int),
                    round as nat,
                )
                &&& map.prefab_indices@ == old(map).prefab_indices@ + repeat(
                    rows_inner(at, p.width as int, p.height as int, p.height as int),
                    round as nat,
                )
            },
        decreases 4 - round,
    {
        while placement.is_none() && attempts < 10
            invariant
                0 <= attempts <= 10,
                0 <= round < 4,
                round > 0 ==> (placement is Some || attempts >= 10),
                map.wf(),
                distances@.len() == NUM_TILES,
                map.revealed_tiles == old(map).revealed_tiles,
                map.key_carried == old(map).key_carried,
                map.spawned_points == old(map).spawned_points,
                placement is None ==> map.tiles@ == old(map).tiles@ && map.prefab_indices@
                    == old(map).prefab_indices@ && monster_spawns@ == old(monster_spawns)@,
                placement is None ==> tries.len() == attempts && all_refused(tries, distances@, player_start, goal),
                placement matches Some((p, at)) ==> {
                    &&& is_draw(p, at)
                    &&& prefab_ok(p)
                    &&& placed_on_map(p, at)
                    &&& placeable(p, at, distances@, player_start, goal)
                    &&& round == 0 ==> {
                        &&& map.tiles@ == old(map).tiles@
                        &&& map.prefab_indices@ == old(map).prefab_indices@
                        &&& monster_spawns@ == outside_rect(p, at, old(monster_spawns)@)
                    }
                    &&& round > 0 ==> {
                        &&& stamped(p, at, old(map).tiles@, map.tiles@)
                        &&& monster_spawns@ == outside_rect(p, at, old(monster_spawns)@) + repeat(
                            rows_marks(p, at, p.height as int),
                            round as nat,
                        )
                        &&& map.prefab_indices@ == old(map).prefab_indices@ + repeat(
                            rows_inner(at, p.width as int, p.height as int, p.height as int),
                            round as nat,
                        )
                    }
                },
            decreases 10 - attempts,
        {
            let roll = rng_range(rng, 0, 9);
            let structure = prefab_by_roll(roll);
            let x = rng_range(rng, 0, SCREEN_WIDTH - structure.width);
            let y = rng_range(rng, 0, SCREEN_HEIGHT - structure.height);
            let at = Point::new(x, y);
            assert(is_draw(structure, at));
            if can_place(&structure, at, distances, player_start, goal) {
                placement = Some((structure, at));
                let kept = points_outside(&structure, at, monster_spawns);
                *monster_spawns = kept;
            } else {
                proof {
                    let before = tries;
                    tries = tries.push((structure, at));
                    assert forall|i: int| 0 <= i < tries.len() implies is_draw(tries[i].0, tries[i].1) && !placeable(
                        tries[i].0,
                        tries[i].1,
                        distances@,
                        player_start,
                        goal,
                    ) by {
                        if i < before.len() {
                            assert(tries[i] == before[i]);
                        }
                    }
                }
            }
            attempts = attempts + 1;
        }
        match placement {
            Some((p, at)) => {
                let ghost tiles_before = map.tiles@;
                let ghost spawns_before = monster_spawns@;
                let ghost inner_before = map.prefab_indices@;
                stamp_prefab(map, monster_spawns, &p, at, rng);
                proof {
                    let marks = rows_marks(p, at, p.height as int);
                    let inner = rows_inner(at, p.width as int, p.height as int, p.height as int);
                    assert(repeat(marks, (round + 1) as nat) == repeat(marks, round as nat) + marks);
                    assert(repeat(inner, (round + 1) as nat) == repeat(inner, round as nat) + inner);
                    assert(monster_spawns@ =~= outside_rect(p, at, old(monster_spawns)@) + repeat(marks, (round + 1) as nat));
                    assert(map.prefab_indices@ =~= old(map).prefab_indices@ + repeat(inner, (round + 1) as nat));
                    if round == 0 {
                        assert(repeat(marks, 0) =~= Seq::<Point>::empty());
                        assert(repeat(inner, 0) =~= Seq::<usize>::empty());
                    } else {
                        assert forall|r: int, c: int|
                            0 <= r < p.height && 0 <= c < p.width implies cell_ok(
                                #[trigger] cell_char(p, r, c),
                                old(map).tiles@[cell_index(at, r, c)],
                                map.tiles@[cell_index(at, r, c)],
                            ) by {
                            assert(cell_ok(cell_char(p, r, c), old(map).tiles@[cell_index(at, r, c)], tiles_before[cell_index(at, r, c)]));
                            assert(cell_ok(cell_char(p, r, c), tiles_before[cell_index(at, r, c)], map.tiles@[cell_index(at, r, c)]));
                        }
                    }
                }
            },
            None => {},
        }
        round = round + 1;
    }
}

} // verus!
