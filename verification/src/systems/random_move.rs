//! Enemies that wander at random.

use vstd::prelude::*;
use legion::Entity;
use crate::bracket::{new_rng, rng_range};
use crate::components::WantsToMove;
use crate::geometry::Point;
use crate::map::spec_neighbour_delta;
use crate::systems::chasing::{step_to, step_towards, Occupant, TurnCommand};

verus! {

/// Whether a point can take a step in any of the four directions without overflow.
pub open spec fn can_step(p: Point) -> bool {
    i32::MIN < p.x < i32::MAX && i32::MIN < p.y < i32::MAX
}

/// Whether a point can take one step in any direction without overflow:
/// [`can_step`], computed.
pub fn may_step(p: Point) -> (b: bool)
    ensures
        b == can_step(p),
{
    p.x != i32::MIN && p.x != i32::MAX && p.y != i32::MIN && p.y != i32::MAX
}

/// The requests of a wanderer at `pos` whose roll is `roll` (0 west, 1 east,
/// 2 north, anything else south): those of heading for the neighbour, and
/// then a move there in any case.
pub open spec fn wander_step(entity: Entity, pos: Point, roll: int, occ: Seq<Occupant>) -> Seq<TurnCommand> {
    let dest = spec_neighbour_delta(roll).spec_plus(pos);
    step_towards(entity, dest, occ) + seq![TurnCommand::Move(WantsToMove { entity, destination: dest })]
}

/// The requests of all wanderers, for the given rolls.
pub open spec fn wander_commands(movers: Seq<(Entity, Point)>, rolls: Seq<int>, occ: Seq<Occupant>) -> Seq<TurnCommand>
    decreases movers.len(),
{
    if movers.len() == 0 || rolls.len() != movers.len() {
        Seq::empty()
    } else {
        wander_commands(movers.drop_last(), rolls.drop_last(), occ) + wander_step(
            movers.last().0,
            movers.last().1,
            rolls.last(),
            occ,
        )
    }
}

/// The requests of one wanderer for a given roll.
pub fn wander(entity: Entity, pos: Point, roll: i32, positions: &Vec<Occupant>) -> (cmds: Vec<TurnCommand>)
    requires
        can_step(pos),
    ensures
        cmds@ == wander_step(entity, pos, roll as int, positions@),
{
    let delta = if roll == 0 {
        Point::new(-1, 0)
    } else if roll == 1 {
        Point::new(1, 0)
    } else if roll == 2 {
        Point::new(0, -1)
    } else {
        Point::new(0, 1)
    };
    let destination = delta.plus(pos);
    let mut cmds = step_to(entity, destination, positions);
    cmds.push(TurnCommand::Move(WantsToMove { entity, destination }));
    cmds
}

/// The wandering system: each wanderer rolls a direction with a fresh
/// generator and heads for that neighbour (attacking a player there, moving
/// when free), and then asks to move there once more in any case.
pub fn random_move(movers: &Vec<(Entity, Point)>, positions: &Vec<Occupant>) -> (cmds: Vec<TurnCommand>)
    requires
        forall|i: int| 0 <= i < movers@.len() ==> can_step(#[trigger] movers@[i].1),
    ensures
        exists|rolls: Seq<int>|
            rolls.len() == movers@.len() && (forall|i: int| 0 <= i < rolls.len() ==> 0 <= #[trigger] rolls[i] < 4)
                && cmds@ == wander_commands(movers@, rolls, positions@),
{
    let mut cmds: Vec<TurnCommand> = Vec::new();
    let ghost mut rolls: Seq<int> = Seq::empty();
    let mut i: usize = 0;
    while i < movers.len()
        invariant
            i <= movers.len(),
            forall|k: int| 0 <= k < movers@.len() ==> can_step(#[trigger] movers@[k].1),
            rolls.len() == i,
            forall|k: int| 0 <= k < rolls.len() ==> 0 <= #[trigger] rolls[k] < 4,
            cmds@ == wander_commands(movers@.take(i as int), rolls, positions@),
        decreases movers.len() - i,
    {
        let (entity, pos) = movers[i];
        assert(can_step(movers@[i as int].1));
        let mut rng = new_rng();
        let roll = rng_range(&mut rng, 0, 4);
        let mut step = wander(entity, pos, roll, positions);
        cmds.append(&mut step);
        proof {
            let old_rolls = rolls;
            rolls = rolls.push(roll as int);
            assert(movers@.take(i + 1).drop_last() =~= movers@.take(i as int));
            assert(rolls.drop_last() =~= old_rolls);
            assert(cmds@ =~= wander_commands(movers@.take(i + 1), rolls, positions@));
        }
        i += 1;
    }
    proof {
        assert(movers@.take(movers.len() as int) =~= movers@);
    }
    cmds
}

} // verus!
