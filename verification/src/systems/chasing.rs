//! Enemies that chase the player they can see.

use vstd::prelude::*;
use legion::Entity;
use crate::components::{WantsToAttack, WantsToMove};
use crate::geometry::Point;
use crate::map::{spec_index_to_point, GameMap};

verus! {

/// A request that a system hands to the next stage of the turn.
#[derive(Clone, Copy, Debug, PartialEq)]
pub enum TurnCommand {
    Attack(WantsToAttack),
    Move(WantsToMove),
}

/// An entity that occupies a tile and has health.
#[derive(Clone, Copy, Debug, PartialEq)]
pub struct Occupant {
    pub entity: Entity,
    pub pos: Point,
    pub is_player: bool,
}

/// An enemy that chases the player.
#[derive(Clone, Copy, Debug, PartialEq)]
pub struct Chaser {
    pub entity: Entity,
    pub pos: Point,
    /// Whether the player's position is among the tiles it sees.
    pub sees_player: bool,
    /// The neighbouring tile closest to the player along the map's paths,
    /// where the chaser has a neighbour it may enter.
    pub lowest_exit: Option<usize>,
}

/// The squared distance between two points.
pub open spec fn dist_sq(a: Point, b: Point) -> int {
    (a.x - b.x) * (a.x - b.x) + (a.y - b.y) * (a.y - b.y)
}

/// Whether the distance between two points can be computed without overflow
/// (each coordinate difference fits an `i32`).
pub open spec fn distance_fits(a: Point, b: Point) -> bool {
    &&& i32::MIN <= a.x - b.x <= i32::MAX
    &&& i32::MIN <= b.x - a.x <= i32::MAX
    &&& i32::MIN <= a.y - b.y <= i32::MAX
    &&& i32::MIN <= b.y - a.y <= i32::MAX
}

/// Whether the distance between two points can be computed without
/// overflow: [`distance_fits`], computed.
pub fn distances_fit(a: Point, b: Point) -> (r: bool)
    ensures
        r == distance_fits(a, b),
{
    let dx: i64 = a.x as i64 - b.x as i64;
    let dy: i64 = a.y as i64 - b.y as i64;
    dx >= -(i32::MAX as i64) && dx <= i32::MAX as i64 && dy >= -(i32::MAX as i64) && dy <= i32::MAX as i64
}

/// The attacks that `attacker` makes on the players among the occupants of `dest`.
pub open spec fn attacks_at(attacker: Entity, dest: Point, occ: Seq<Occupant>) -> Seq<TurnCommand>
    decreases occ.len(),
{
    if occ.len() == 0 {
        Seq::empty()
    } else {
        let o = occ.last();
        attacks_at(attacker, dest, occ.drop_last()) + (if o.pos == dest && o.is_player {
            seq![TurnCommand::Attack(WantsToAttack { attacker, victim: o.entity })]
        } else {
            Seq::empty()
        })
    }
}

/// Whether some occupant stands on `dest`.
pub open spec fn occupied(dest: Point, occ: Seq<Occupant>) -> bool {
    exists|i: int| 0 <= i < occ.len() && occ[i].pos == dest
}

/// The requests of one entity that heads for `dest`: an attack on each player
/// there; a move when nobody stands there (an occupant that is not the player
/// blocks the move without being attacked).
pub open spec fn step_towards(entity: Entity, dest: Point, occ: Seq<Occupant>) -> Seq<TurnCommand> {
    if occupied(dest, occ) {
        attacks_at(entity, dest, occ)
    } else {
        seq![TurnCommand::Move(WantsToMove { entity, destination: dest })]
    }
}

/// Where a chaser heads: next to the player it steps onto the player
/// (distance at most 1.2, i.e. squared distance at most 1), otherwise to its
/// lowest exit.
pub open spec fn chase_destination(c: Chaser, player_pos: Point) -> Point {
    if dist_sq(c.pos, player_pos) > 1 {
        spec_index_to_point(c.lowest_exit->0)
    } else {
        player_pos
    }
}

/// The requests of all chasers: nothing from one that does not see the
/// player or has no exit.
pub open spec fn chase_commands(movers: Seq<Chaser>, player_pos: Point, occ: Seq<Occupant>) -> Seq<TurnCommand>
    decreases movers.len(),
{
    if movers.len() == 0 {
        Seq::empty()
    } else {
        let c = movers.last();
        chase_commands(movers.drop_last(), player_pos, occ) + (if c.sees_player && c.lowest_exit is Some {
            step_towards(c.entity, chase_destination(c, player_pos), occ)
        } else {
            Seq::empty()
        })
    }
}

proof fn lemma_attacks_need_occupant(attacker: Entity, dest: Point, occ: Seq<Occupant>)
    requires
        !occupied(dest, occ),
    ensures
        attacks_at(attacker, dest, occ) == Seq::<TurnCommand>::empty(),
    decreases occ.len(),
{
    if occ.len() > 0 {
        assert forall|i: int| 0 <= i < occ.drop_last().len() implies occ.drop_last()[i].pos != dest by {
            assert(occ[i].pos != dest);
        }
        lemma_attacks_need_occupant(attacker, dest, occ.drop_last());
        assert(occ[occ.len() - 1].pos != dest);
    }
}

/// The requests of an entity that heads for `dest`.
pub fn step_to(entity: Entity, dest: Point, positions: &Vec<Occupant>) -> (cmds: Vec<TurnCommand>)
    ensures
        cmds@ == step_towards(entity, dest, positions@),
{
    let mut cmds: Vec<TurnCommand> = Vec::new();
    let mut attacked = false;
    let mut i: usize = 0;
    while i < positions.len()
        invariant
            i <= positions.len(),
            cmds@ == attacks_at(entity, dest, positions@.take(i as int)),
            attacked <==> exists|k: int| 0 <= k < i && positions@[k].pos == dest,
        decreases positions.len() - i,
    {
        proof {
            assert(positions@.take(i + 1).drop_last() =~= positions@.take(i as int));
        }
        let o = positions[i];
        if o.pos == dest {
            if o.is_player {
                cmds.push(TurnCommand::Attack(WantsToAttack { attacker: entity, victim: o.entity }));
            }
            attacked = true;
        }
        proof {
            assert(cmds@ =~= attacks_at(entity, dest, positions@.take(i + 1)));
        }
        i += 1;
    }
    proof {
        assert(positions@.take(positions.len() as int) =~= positions@);
    }
    if !attacked {
        proof {
            lemma_attacks_need_occupant(entity, dest, positions@);
        }
        cmds.push(TurnCommand::Move(WantsToMove { entity, destination: dest }));
        proof {
            assert(cmds@ =~= seq![TurnCommand::Move(WantsToMove { entity, destination: dest })]);
        }
    }
    cmds
}

/// Whether two points are more than 1.2 apart (the squared distance exceeds 1).
pub fn farther_than_adjacent(a: Point, b: Point) -> (r: bool)
    requires
        distance_fits(a, b),
    ensures
        r == (dist_sq(a, b) > 1),
{
    let dx: i64 = if a.x > b.x { (a.x - b.x) as i64 } else { (b.x - a.x) as i64 };
    let dy: i64 = if a.y > b.y { (a.y - b.y) as i64 } else { (b.y - a.y) as i64 };
    proof {
        assert((a.x - b.x) * (a.x - b.x) == dx * dx) by (nonlinear_arith)
            requires dx == a.x - b.x || dx == b.x - a.x;
        assert((a.y - b.y) * (a.y - b.y) == dy * dy) by (nonlinear_arith)
            requires dy == a.y - b.y || dy == b.y - a.y;
        assert(dx >= 2 ==> dx * dx >= 4) by (nonlinear_arith);
        assert(dy >= 2 ==> dy * dy >= 4) by (nonlinear_arith);
        assert(dx <= 1 && dx >= 0 ==> dx * dx == dx) by (nonlinear_arith);
        assert(dy <= 1 && dy >= 0 ==> dy * dy == dy) by (nonlinear_arith);
    }
    dx >= 2 || dy >= 2 || (dx == 1 && dy == 1)
}

/// The chasing system: each enemy that sees the player and has an exit
/// heads for the player (when adjacent) or for its lowest exit, attacking
/// the player there or moving when the tile is free.
pub fn chasing(map: &GameMap, player_pos: Point, movers: &Vec<Chaser>, positions: &Vec<Occupant>) -> (cmds: Vec<TurnCommand>)
    requires
        forall|i: int|
            0 <= i < movers@.len() ==> (#[trigger] movers@[i]).sees_player && movers@[i].lowest_exit is Some
                ==> distance_fits(movers@[i].pos, player_pos),
    ensures
        cmds@ == chase_commands(movers@, player_pos, positions@),
{
    let mut cmds: Vec<TurnCommand> = Vec::new();
    let mut i: usize = 0;
    while i < movers.len()
        invariant
            i <= movers.len(),
            forall|k: int|
                0 <= k < movers@.len() ==> (#[trigger] movers@[k]).sees_player && movers@[k].lowest_exit is Some
                    ==> distance_fits(movers@[k].pos, player_pos),
            cmds@ == chase_commands(movers@.take(i as int), player_pos, positions@),
        decreases movers.len() - i,
    {
        proof {
            assert(movers@.take(i + 1).drop_last() =~= movers@.take(i as int));
        }
        let c = movers[i];
        assert(movers@[i as int] == c);
        if c.sees_player {
            if let Some(exit) = c.lowest_exit {
                let destination = if farther_than_adjacent(c.pos, player_pos) {
                    map.index_to_point2d(exit)
                } else {
                    player_pos
                };
                let mut step = step_to(c.entity, destination, positions);
                cmds.append(&mut step);
            }
        }
        proof {
            assert(cmds@ =~= chase_commands(movers@.take(i + 1), player_pos, positions@));
        }
        i += 1;
    }
    proof {
        assert(movers@.take(movers.len() as int) =~= movers@);
    }
    cmds
}

} // verus!
