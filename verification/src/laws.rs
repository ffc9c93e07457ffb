//! Properties of the game's rules that span several functions or hold for
//! all inputs, each proved from the specifications the functions state.

use vstd::prelude::*;
use crate::components::{Armor, Health, Score, FOV_REDUC, POISON_DMG};
use crate::geometry::{Point, NUM_TILES, SCREEN_WIDTH};
use crate::map::{
    spec_in_bounds, spec_index_in_map, spec_index_to_point, spec_map_idx, spec_neighbour_delta, tile_enterable, GameMap,
    TileType,
};
use crate::map_builder::drunkard::{carve, floor_count, DESIRED_FLOOR};
use crate::map_builder::themes::{dungeon_char, forest_char, temple_char, volcano_char};
use crate::ecs::{Part, Queued};
use crate::spawner::template::{
    copies, effect_adds, effects_spec, lemma_pool_in_range, pool, template_adds, Provided, Template,
};
use crate::systems::chasing::{chase_commands, chase_destination, occupied, step_towards, Chaser, Occupant, TurnCommand};
use crate::systems::combat::{
    armor_phase, attack_fits, final_damage, health_after, narrows, player_score_after, slain, victim_score_after,
    AttackInfo,
};
use crate::systems::player_input::pickup;
use crate::systems::end_turn::{
    digits_value, file_scores, int_text, is_digit, line_score, nat_text, next_turn_state, players_outcome,
    scan_scores, scores_text, scores_with, TurnEvent, TurnState,
};
use crate::systems::movement::poisoned;
use crate::systems::use_item::capped_add;

verus! {

/// The point stored at a tile index lies on the map, and indexes back to that tile.
pub proof fn law_index_to_point_roundtrip(i: usize)
    requires
        i < NUM_TILES,
    ensures
        spec_in_bounds(spec_index_to_point(i)),
        spec_map_idx(spec_index_to_point(i).x as int, spec_index_to_point(i).y as int) == i,
{
    let w = SCREEN_WIDTH as int;
    vstd::arithmetic::div_mod::lemma_fundamental_div_mod(i as int, w);
    assert(0 <= (i as int) % w < w) by {
        vstd::arithmetic::div_mod::lemma_mod_bound(i as int, w);
    }
    assert((i as int) / w < 50) by {
        vstd::arithmetic::div_mod::lemma_div_by_multiple_is_strongly_ordered(i as int, NUM_TILES as int, 50, w);
    }
}

/// A point on the map indexes a tile, and that tile stores the point.
pub proof fn law_point_to_index_roundtrip(p: Point)
    requires
        spec_in_bounds(p),
    ensures
        0 <= spec_map_idx(p.x as int, p.y as int) < NUM_TILES,
        spec_index_to_point(spec_map_idx(p.x as int, p.y as int) as usize) == p,
{
    let i = spec_map_idx(p.x as int, p.y as int);
    vstd::arithmetic::div_mod::lemma_fundamental_div_mod_converse(i, SCREEN_WIDTH as int, p.y as int, p.x as int);
}

/// Walls and decorations never let a mover in; floor, poison floor and the
/// exit always do; a door does exactly while the key is carried.
pub proof fn law_who_may_enter(m: GameMap, p: Point)
    requires
        spec_in_bounds(p),
    ensures
        (m.tile_at(p) == TileType::Wall || m.tile_at(p) == TileType::Decorative || m.tile_at(p)
            == TileType::OtherDecorative) ==> !m.spec_can_enter(p),
        (m.tile_at(p) == TileType::Floor || m.tile_at(p) == TileType::PoisonFloor || m.tile_at(p)
            == TileType::Exit) ==> m.spec_can_enter(p),
        m.tile_at(p) == TileType::Door ==> (m.spec_can_enter(p) == m.key_carried),
{
}

/// Off the map nothing may be entered.
pub proof fn law_enter_only_on_map(m: GameMap, p: Point)
    ensures
        m.spec_can_enter(p) ==> spec_in_bounds(p),
{
}

/// Every exit of a tile is a tile of the map that a mover may enter, one
/// step west, east, north or south of it.
pub proof fn law_exits_are_enterable_neighbours(m: GameMap, idx: usize, k: int)
    requires
        m.wf(),
        0 <= k < m.spec_exits(idx).len(),
    ensures
        m.spec_exits(idx)[k] < NUM_TILES,
        exists|d: int|
            0 <= d < 4 && {
                let q = spec_index_to_point(idx).spec_plus(#[trigger] spec_neighbour_delta(d));
                &&& m.spec_can_enter(q)
                &&& spec_map_idx(q.x as int, q.y as int) == m.spec_exits(idx)[k]
            },
{
    let loc = spec_index_to_point(idx);
    let e0 = m.exit_part(loc, 0);
    let e1 = m.exit_part(loc, 1);
    let e2 = m.exit_part(loc, 2);
    let e3 = m.exit_part(loc, 3);
    let x = m.spec_exits(idx)[k];
    let d: int = if k < e0.len() {
        0
    } else if k < e0.len() + e1.len() {
        1
    } else if k < e0.len() + e1.len() + e2.len() {
        2
    } else {
        3
    };
    let q = loc.spec_plus(spec_neighbour_delta(d));
    assert(m.exit_part(loc, d) == seq![x]);
    assert(m.spec_can_enter(q));
    law_point_to_index_roundtrip(q);
}

/// Healing, armor and poison resistance never rise above their maximum, and
/// a gain that fits below the maximum is given in full.
pub proof fn law_gains_capped(current: i32, amount: i32, max: i32)
    requires
        i32::MIN <= current + amount <= i32::MAX,
    ensures
        capped_add(current, amount, max) <= max,
        current + amount <= max ==> capped_add(current, amount, max) == current + amount,
{
}

/// A step on poison never takes health or poison resistance below 0, and
/// costs no health while any resistance is left.
pub proof fn law_poison_floor(h: Health, s: Score)
    requires
        h.current >= 0,
        s.poison_shield >= 0,
    ensures
        poisoned(h, s).0.current >= 0,
        poisoned(h, s).1.poison_shield >= 0,
        s.poison_shield > 0 ==> poisoned(h, s).0 == h,
        s.poison_shield == 0 && h.current > 0 ==> poisoned(h, s).0.current == h.current - POISON_DMG,
{
}

/// Armor shields health: against an attacker that does not ignore it,
/// intact armor absorbs the damage up to its own value, and only the excess
/// passes through to the player's health; a fully absorbed hit costs no
/// health, whatever attacks came before it.
pub proof fn law_armor_absorbs(info: AttackInfo)
    requires
        info.victim_armor matches Some(a) && a.current > 0,
        info.victim_health is Some,
        info.victim_is_player,
        !info.ignores_armor,
        attack_fits(info),
    ensures
        ({
            let a = info.victim_armor->0;
            let h = info.victim_health->0;
            let f = final_damage(info);
            &&& armor_phase(info).1 == Some(Armor { current: (if f < a.current { a.current - f } else { 0 }) as i32, max: a.max })
            &&& health_after(info) == Some(Health {
                current: (if f <= a.current { h.current as int } else { h.current - (f - a.current) }) as i32,
                max: h.max,
            })
        }),
{
}

/// An enemy that narrows the player's view never takes the radius below 5.
pub proof fn law_view_never_below_five(info: AttackInfo)
    requires
        narrows(info),
    ensures
        info.victim_fov_radius->0 - FOV_REDUC >= 5,
{
}

/// Widening a field of view and then narrowing it gives back the radius.
pub proof fn law_widen_then_narrow(radius: int)
    ensures
        (radius + 1) - FOV_REDUC == radius,
{
}

/// Every tile is drawn with the theme's own glyph, except the exit, which
/// every theme draws as '>'.
pub proof fn law_exit_looks_the_same()
    ensures
        dungeon_char(TileType::Exit) == '>',
        forest_char(TileType::Exit) == '>',
        volcano_char(TileType::Exit) == '>',
        temple_char(TileType::Exit) == '>',
{
}

/// A miner only ever turns tiles into floor: floor stays floor, and every
/// other tile either stays or becomes floor.
pub proof fn law_miners_only_dig(tiles: Seq<TileType>, walk: Seq<Point>, i: int)
    requires
        tiles.len() == NUM_TILES,
        forall|k: int| 0 <= k < walk.len() ==> spec_index_in_map(#[trigger] walk[k]),
        0 <= i < tiles.len(),
    ensures
        i < carve(tiles, walk).len() ==> (carve(tiles, walk)[i] == tiles[i] || carve(tiles, walk)[i] == TileType::Floor),
        carve(tiles, walk).len() == tiles.len(),
    decreases walk.len(),
{
    if walk.len() > 0 {
        assert forall|k: int| 0 <= k < walk.drop_last().len() implies spec_index_in_map(#[trigger] walk.drop_last()[k]) by {
            assert(walk.drop_last()[k] == walk[k]);
        }
        law_miners_only_dig(tiles, walk.drop_last(), i);
        assert(spec_index_in_map(walk[walk.len() - 1]));
    }
}

/// An entity heading somewhere never moves onto an occupied tile, and only
/// ever attacks a player standing there.
pub proof fn law_no_move_into_occupied(e: legion::Entity, dest: Point, occ: Seq<Occupant>, k: int)
    requires
        0 <= k < step_towards(e, dest, occ).len(),
    ensures
        step_towards(e, dest, occ)[k] matches TurnCommand::Move(m) ==> !occupied(dest, occ) && m.destination == dest,
        step_towards(e, dest, occ)[k] matches TurnCommand::Attack(a) ==> exists|i: int|
            0 <= i < occ.len() && occ[i].pos == dest && occ[i].is_player && occ[i].entity == a.victim,
{
    if occupied(dest, occ) {
        lemma_attacks_target_players(e, dest, occ, k);
    }
}

proof fn lemma_attacks_target_players(e: legion::Entity, dest: Point, occ: Seq<Occupant>, k: int)
    requires
        0 <= k < crate::systems::chasing::attacks_at(e, dest, occ).len(),
    ensures
        crate::systems::chasing::attacks_at(e, dest, occ)[k] matches TurnCommand::Attack(a) && exists|i: int|
            0 <= i < occ.len() && occ[i].pos == dest && occ[i].is_player && occ[i].entity == a.victim,
    decreases occ.len(),
{
    let prev = crate::systems::chasing::attacks_at(e, dest, occ.drop_last());
    if k < prev.len() {
        lemma_attacks_target_players(e, dest, occ.drop_last(), k);
        let a = prev[k]->Attack_0;
        let i = choose|i: int| 0 <= i < occ.drop_last().len() && occ.drop_last()[i].pos == dest && occ.drop_last()[i].is_player && occ.drop_last()[i].entity == a.victim;
        assert(occ[i] == occ.drop_last()[i]);
    } else {
        assert(occ[occ.len() - 1] == occ.last());
    }
}

proof fn lemma_nat_text_digits(n: nat)
    ensures
        nat_text(n).len() > 0,
        forall|k: int| 0 <= k < nat_text(n).len() ==> is_digit(#[trigger] nat_text(n)[k]),
        digits_value(nat_text(n)) == n,
    decreases n,
{
    if n >= 10 {
        lemma_nat_text_digits(n / 10);
        let t = nat_text(n / 10);
        assert(nat_text(n) == t.push((48 + n % 10) as u8));
        assert(nat_text(n).drop_last() =~= t);
        vstd::arithmetic::div_mod::lemma_fundamental_div_mod(n as int, 10);
        assert(digits_value(nat_text(n)) == digits_value(t) * 10 + ((48 + n % 10) as u8 - 48) as nat);
        assert(((48 + n % 10) as u8) as int == 48 + n % 10);
        assert(digits_value(nat_text(n)) == n);
        assert forall|k: int| 0 <= k < nat_text(n).len() implies is_digit(#[trigger] nat_text(n)[k]) by {
            if k < t.len() {
                assert(nat_text(n)[k] == t[k]);
            }
        }
    } else {
        assert(nat_text(n).drop_last() =~= Seq::<u8>::empty());
        assert(digits_value(Seq::<u8>::empty()) == 0);
        assert(((48 + n) as u8) as int == 48 + n);
        assert(nat_text(n).last() == (48 + n) as u8);
        assert(digits_value(nat_text(n)) == n);
    }
}

proof fn lemma_scan_digits(d: Seq<u8>)
    requires
        forall|k: int| 0 <= k < d.len() ==> is_digit(#[trigger] d[k]),
    ensures
        scan_scores(d) == (Seq::<i32>::empty(), d),
    decreases d.len(),
{
    if d.len() > 0 {
        lemma_scan_digits(d.drop_last());
        assert(d.drop_last().push(d.last()) =~= d);
    }
}

proof fn lemma_scan_concat(t: Seq<u8>, u: Seq<u8>)
    requires
        scan_scores(t).1.len() == 0,
    ensures
        scan_scores(t + u) == (scan_scores(t).0 + scan_scores(u).0, scan_scores(u).1),
    decreases u.len(),
{
    if u.len() == 0 {
        assert(t + u =~= t);
        assert(scan_scores(t).0 + Seq::<i32>::empty() =~= scan_scores(t).0);
        assert(scan_scores(t).1 =~= Seq::<u8>::empty());
    } else {
        lemma_scan_concat(t, u.drop_last());
        assert((t + u).drop_last() =~= t + u.drop_last());
        assert((t + u).last() == u.last());
        let (d0, c0) = scan_scores(t + u.drop_last());
        let (e0, f0) = scan_scores(u.drop_last());
        assert(d0 == scan_scores(t).0 + e0);
        assert(c0 == f0);
        if u.last() == 10 {
            assert(scan_scores(t).0 + e0 + line_score(f0) =~= scan_scores(t).0 + (e0 + line_score(f0)));
        }
    }
}

/// Score tables survive the file: reading back the text written for a
/// table of non-negative scores gives the same table, in the same order.
/// (A negative score is written with a minus sign, which reading ignores.)
pub proof fn law_score_file_roundtrip(s: Seq<i32>)
    requires
        forall|k: int| 0 <= k < s.len() ==> s[k] >= 0,
    ensures
        file_scores(scores_text(s)) == s,
        scan_scores(scores_text(s)) == (s, Seq::<u8>::empty()),
    decreases s.len(),
{
    if s.len() == 0 {
        assert(line_score(Seq::<u8>::empty()) =~= Seq::<i32>::empty());
        assert(Seq::<i32>::empty() + Seq::<i32>::empty() =~= Seq::<i32>::empty());
    } else {
        let p = s.drop_last();
        law_score_file_roundtrip(p);
        let n = s.last();
        let d = int_text(n as int);
        assert(d == nat_text(n as nat));
        lemma_nat_text_digits(n as nat);
        lemma_scan_digits(d);
        let line = d + seq![10u8];
        assert(line.drop_last() =~= d);
        assert(scan_scores(line) == (line_score(d), Seq::<u8>::empty()));
        assert(line_score(d) == seq![n]);
        lemma_scan_concat(scores_text(p), line);
        assert(scores_text(s) =~= scores_text(p) + line);
        assert(p + seq![n] =~= s);
        assert(line_score(Seq::<u8>::empty()) =~= Seq::<i32>::empty());
        assert(s + Seq::<i32>::empty() =~= s);
    }
}

/// Recording a final score keeps every score of the table, and adds the
/// new score once, only where the table does not hold it yet (no duplicate
/// is logged).
pub proof fn law_score_recorded_once(table: Seq<i32>, n: i32, x: i32)
    ensures
        scores_with(table, n).contains(n),
        scores_with(table, n).to_multiset().count(x) == table.to_multiset().count(x) + (if x == n
            && !table.contains(n) {
            1nat
        } else {
            0nat
        }),
{
    broadcast use vstd::seq_lib::group_to_multiset_ensures;

    if !table.contains(n) {
        assert(table.push(n)[table.len() as int] == n);
    }
}

/// The turns cycle while the player lives away from the tome and the exit:
/// the player's turn passes to the monsters, and theirs back to awaiting input.
pub proof fn law_turn_cycle(h: Health, pos: Point, tome: Point, tiles: Seq<TileType>)
    requires
        h.current >= 1,
        pos != tome,
        tiles[spec_map_idx(pos.x as int, pos.y as int)] != TileType::Exit,
    ensures
        players_outcome(next_turn_state(TurnState::PlayerTurn), seq![(h, pos)], tome, tiles) == (
            TurnState::MonsterTurn,
            Seq::<TurnEvent>::empty(),
        ),
        players_outcome(next_turn_state(TurnState::MonsterTurn), seq![(h, pos)], tome, tiles) == (
            TurnState::AwaitingInput,
            Seq::<TurnEvent>::empty(),
        ),
{
    let ps = seq![(h, pos)];
    let none = Seq::<(Health, Point)>::empty();
    assert(ps.drop_last() =~= none);
    assert(ps.last() == (h, pos));
    assert(players_outcome(TurnState::MonsterTurn, none, tome, tiles) == (TurnState::MonsterTurn, Seq::<TurnEvent>::empty()));
    assert(players_outcome(TurnState::AwaitingInput, none, tome, tiles) == (TurnState::AwaitingInput, Seq::<TurnEvent>::empty()));
    assert(Seq::<TurnEvent>::empty() + Seq::<TurnEvent>::empty() + Seq::<TurnEvent>::empty() =~= Seq::<TurnEvent>::empty());
}

/// A player whose health falls below 1 ends the game and has its score
/// recorded, unless it stands on the tome or the exit at that moment.
pub proof fn law_death_ends_game(s: TurnState, h: Health, pos: Point, tome: Point, tiles: Seq<TileType>)
    requires
        h.current < 1,
        pos != tome,
        tiles[spec_map_idx(pos.x as int, pos.y as int)] != TileType::Exit,
    ensures
        players_outcome(s, seq![(h, pos)], tome, tiles) == (TurnState::GameOver, seq![TurnEvent::PlayerDied]),
{
    let ps = seq![(h, pos)];
    let none = Seq::<(Health, Point)>::empty();
    assert(ps.drop_last() =~= none);
    assert(ps.last() == (h, pos));
    assert(players_outcome(s, none, tome, tiles) == (s, Seq::<TurnEvent>::empty()));
    assert(Seq::<TurnEvent>::empty() + seq![TurnEvent::PlayerDied] + Seq::<TurnEvent>::empty() =~= seq![TurnEvent::PlayerDied]);
}

/// `count` copies of `idx` hold `idx` that many times, and nothing else.
proof fn lemma_copies_count(idx: usize, count: int, t: usize)
    ensures
        copies(idx, count).to_multiset().count(t) == (if t == idx && count > 0 { count } else { 0 }),
    decreases (if count > 0 { count } else { 0 }),
{
    broadcast use vstd::seq_lib::group_to_multiset_ensures;

    if count <= 0 {
        assert(copies(idx, count) =~= Seq::<usize>::empty());
        assert(!copies(idx, count).contains(t));
    } else {
        lemma_copies_count(idx, count - 1, t);
        assert(copies(idx, count) =~= copies(idx, count - 1).push(idx));
    }
}

/// The draw of a level holds each template exactly as often as its
/// frequency when it may appear on that level (never when its frequency is
/// not positive), and holds nothing else.
pub proof fn law_draw_follows_frequency(ts: Seq<Template>, level: usize, t: usize)
    requires
        ts.len() <= usize::MAX,
    ensures
        pool(ts, level).to_multiset().count(t) == (if t < ts.len() && ts[t as int].levels@.contains(level)
            && ts[t as int].frequency > 0 {
            ts[t as int].frequency as int
        } else {
            0
        }),
    decreases ts.len(),
{
    broadcast use vstd::seq_lib::group_to_multiset_ensures;

    if ts.len() == 0 {
        assert(pool(ts, level) =~= Seq::<usize>::empty());
        assert(!pool(ts, level).contains(t));
    } else {
        let last = (ts.len() - 1) as usize;
        let front = pool(ts.drop_last(), level);
        let tail = if ts.last().levels@.contains(level) {
            copies(last, ts.last().frequency as int)
        } else {
            Seq::<usize>::empty()
        };
        assert(pool(ts, level) == front + tail);
        vstd::seq_lib::lemma_multiset_commutative(front, tail);
        law_draw_follows_frequency(ts.drop_last(), level, t);
        lemma_copies_count(last, ts.last().frequency as int, t);
        assert(!Seq::<usize>::empty().contains(t));
        if t == last {
            if front.contains(t) {
                lemma_pool_in_range(ts.drop_last(), level, t);
            }
        } else if t < last {
            assert(ts.drop_last()[t as int] == ts[t as int]);
        }
    }
}

/// Picking up never lets the inventory grow beyond 4 items: the number
/// carried afterwards is the number held, plus the items taken, less the
/// replaced weapons; and it stays at 4 or below when it started there.
pub proof fn law_inventory_capped(items: Seq<(legion::Entity, Point, bool)>, pos: Point, weapons: Seq<legion::Entity>, held: int)
    requires
        0 <= held,
    ensures
        ({
            let (taken, _discarded, _sounds, n, swapped) = pickup(items, pos, weapons, held);
            &&& n == held + taken.len() - (if swapped { weapons.len() as int } else { 0 })
            &&& held <= 4 ==> n <= 4
            &&& n <= (if held <= 4 { 4 } else { held })
        }),
    decreases items.len(),
{
    if items.len() > 0 {
        law_inventory_capped(items.drop_last(), pos, weapons, held);
    }
}

/// Whether a chaser stands on the map and its lowest exit, where it has one,
/// is one of the exits of its tile (as bracket-lib's path finding picks it).
pub open spec fn chaser_on_paths(m: GameMap, c: Chaser) -> bool {
    &&& spec_in_bounds(c.pos)
    &&& c.lowest_exit matches Some(x) ==> m.spec_exits(spec_map_idx(c.pos.x as int, c.pos.y as int) as usize).contains(x)
}

/// Chasers move only onto tiles they may enter, one step west, east, north
/// or south of where they stand, as long as each heads for one of its
/// tile's exits and the player stands among the occupants.
pub proof fn law_chasers_step_to_enterable_neighbours(
    m: GameMap,
    movers: Seq<Chaser>,
    player_pos: Point,
    occ: Seq<Occupant>,
    j: int,
)
    requires
        m.wf(),
        occupied(player_pos, occ),
        forall|i: int| 0 <= i < movers.len() ==> chaser_on_paths(m, #[trigger] movers[i]),
        0 <= j < chase_commands(movers, player_pos, occ).len(),
    ensures
        chase_commands(movers, player_pos, occ)[j] matches TurnCommand::Move(w) ==> exists|i: int, d: int|
            #![trigger movers[i], spec_neighbour_delta(d)]
            0 <= i < movers.len() && 0 <= d < 4 && w.entity == movers[i].entity && w.destination
                == movers[i].pos.spec_plus(spec_neighbour_delta(d)) && m.spec_can_enter(w.destination),
    decreases movers.len(),
{
    let rest = movers.drop_last();
    let prev = chase_commands(rest, player_pos, occ);
    let c = movers.last();
    assert(chaser_on_paths(m, movers[movers.len() - 1]));
    if j < prev.len() {
        assert forall|i: int| 0 <= i < rest.len() implies chaser_on_paths(m, #[trigger] rest[i]) by {
            assert(rest[i] == movers[i]);
        }
        law_chasers_step_to_enterable_neighbours(m, rest, player_pos, occ, j);
        if let TurnCommand::Move(w) = chase_commands(movers, player_pos, occ)[j] {
            assert(chase_commands(movers, player_pos, occ)[j] == prev[j]);
            let (i, d) = choose|i: int, d: int|
                #![trigger rest[i], spec_neighbour_delta(d)]
                0 <= i < rest.len() && 0 <= d < 4 && w.entity == rest[i].entity && w.destination
                    == rest[i].pos.spec_plus(spec_neighbour_delta(d)) && m.spec_can_enter(w.destination);
            assert(rest[i] == movers[i]);
        }
    } else {
        let dest = chase_destination(c, player_pos);
        let k = j - prev.len();
        law_no_move_into_occupied(c.entity, dest, occ, k);
        if let TurnCommand::Move(w) = chase_commands(movers, player_pos, occ)[j] {
            assert(chase_commands(movers, player_pos, occ)[j] == step_towards(c.entity, dest, occ)[k]);
            assert(dest != player_pos);
            let x = c.lowest_exit->0;
            let idx = spec_map_idx(c.pos.x as int, c.pos.y as int) as usize;
            law_point_to_index_roundtrip(c.pos);
            let exits = m.spec_exits(idx);
            let e = choose|e: int| 0 <= e < exits.len() && exits[e] == x;
            law_exits_are_enterable_neighbours(m, idx, e);
            let d = choose|d: int|
                0 <= d < 4 && {
                    let q = spec_index_to_point(idx).spec_plus(#[trigger] spec_neighbour_delta(d));
                    &&& m.spec_can_enter(q)
                    &&& spec_map_idx(q.x as int, q.y as int) == exits[e]
                };
            let q = c.pos.spec_plus(spec_neighbour_delta(d));
            law_point_to_index_roundtrip(q);
            assert(w.destination == q);
            assert(movers[movers.len() - 1] == c);
        }
    }
}

/// A slain enemy's score is added to the player's, never beyond its
/// maximum: with score `c` of maximum `m` and a yield `y`, the player ends
/// with `min(m, c + y)`, which is `c + y` whenever that fits under `m`.
pub proof fn law_kill_credits_score(info: AttackInfo)
    requires
        attack_fits(info),
        !info.victim_is_player,
        info.victim_health matches Some(h) && h.current - final_damage(info) < 1,
        info.victim_provides_score is Some,
        info.player_score is Some,
    ensures
        ({
            let c = info.player_score->0;
            let y = info.victim_provides_score->0;
            let after = player_score_after(info)->0;
            &&& player_score_after(info) is Some
            &&& after.current == (if c.current + y <= c.max { c.current + y } else { c.max as int })
            &&& after.max == c.max
            &&& c.current + y <= c.max ==> after.current == c.current + y
            &&& y >= 0 ==> after.current >= (if c.current <= c.max { c.current } else { c.max })
        }),
{
    assert(slain(info));
}

/// A surviving enemy, or a victim that is the player, credits nothing.
pub proof fn law_no_kill_no_credit(info: AttackInfo)
    requires
        attack_fits(info),
        info.victim_is_player || (info.victim_health matches Some(h) && h.current - final_damage(info) >= 1)
            || info.victim_health is None,
    ensures
        player_score_after(info) == info.player_score,
{
}

/// The floor items at `pos`, in order.
pub open spec fn entities_at(items: Seq<(legion::Entity, Point, bool)>, pos: Point) -> Seq<legion::Entity>
    decreases items.len(),
{
    if items.len() == 0 {
        Seq::empty()
    } else {
        entities_at(items.drop_last(), pos) + (if items.last().1 == pos {
            seq![items.last().0]
        } else {
            Seq::empty()
        })
    }
}

/// While the inventory has room for them all, every floor item at the
/// player's position is picked up, weapon or not, in order.
pub proof fn law_room_takes_everything(items: Seq<(legion::Entity, Point, bool)>, pos: Point, weapons: Seq<legion::Entity>, held: int)
    requires
        0 <= held,
        held + entities_at(items, pos).len() <= 4,
    ensures
        pickup(items, pos, weapons, held).0 == entities_at(items, pos),
    decreases items.len(),
{
    if items.len() > 0 {
        let rest = items.drop_last();
        law_room_takes_everything(rest, pos, weapons, held);
        law_inventory_capped(rest, pos, weapons, held);
        let (t, d, snd, n, sw) = pickup(rest, pos, weapons, held);
        if items.last().1 == pos {
            assert(entities_at(items, pos) =~= entities_at(rest, pos).push(items.last().0));
        } else {
            assert(entities_at(items, pos) =~= entities_at(rest, pos));
        }
    }
}

/// An item at the player's position is left behind only when 4 items are
/// carried and it is not a weapon that replaces carried weapons: with fewer
/// than 4 carried, the first item at the position is always taken.
pub proof fn law_first_item_taken(it: (legion::Entity, Point, bool), pos: Point, weapons: Seq<legion::Entity>, held: int)
    requires
        0 <= held < 4,
        it.1 == pos,
    ensures
        pickup(seq![it], pos, weapons, held).0 == seq![it.0],
{
    let one = seq![it];
    assert(one.drop_last() =~= Seq::<(legion::Entity, Point, bool)>::empty());
    assert(one.last() == it);
    assert(entities_at(one.drop_last(), pos) =~= Seq::<legion::Entity>::empty());
    assert(entities_at(one, pos) =~= seq![it.0]);
    law_room_takes_everything(one, pos, weapons, held);
}

/// A chaser heads for the player only from a tile next to it west, east,
/// north or south (or from the player's own tile); from anywhere else,
/// a diagonal neighbour included, it heads for its lowest exit.
pub proof fn law_chasers_attack_only_orthogonally(c: Chaser, player_pos: Point)
    ensures
        ({
            let dx = c.pos.x - player_pos.x;
            let dy = c.pos.y - player_pos.y;
            let beside = (dx == 0 && (dy == 1 || dy == -1 || dy == 0)) || (dy == 0 && (dx == 1 || dx == -1));
            &&& beside ==> chase_destination(c, player_pos) == player_pos
            &&& !beside ==> chase_destination(c, player_pos) == spec_index_to_point(c.lowest_exit->0)
        }),
{
    let dx = c.pos.x - player_pos.x;
    let dy = c.pos.y - player_pos.y;
    assert(dx * dx >= 0 && dy * dy >= 0) by (nonlinear_arith);
    assert((dx >= 1 || dx <= -1) ==> dx * dx >= 1) by (nonlinear_arith);
    assert((dy >= 1 || dy <= -1) ==> dy * dy >= 1) by (nonlinear_arith);
    assert((dx >= 2 || dx <= -2) ==> dx * dx >= 4) by (nonlinear_arith);
    assert((dy >= 2 || dy <= -2) ==> dy * dy >= 4) by (nonlinear_arith);
    assert(dx == 0 ==> dx * dx == 0) by (nonlinear_arith);
    assert(dy == 0 ==> dy * dy == 0) by (nonlinear_arith);
    assert((dx == 1 || dx == -1) ==> dx * dx == 1) by (nonlinear_arith);
    assert((dy == 1 || dy == -1) ==> dy * dy == 1) by (nonlinear_arith);
}

/// The floor count of a row of tiles is the number of its floor tiles.
pub proof fn law_floor_count_counts(tiles: Seq<TileType>)
    ensures
        floor_count(tiles) <= tiles.len(),
        floor_count(tiles.push(TileType::Floor)) == floor_count(tiles) + 1,
        forall|t: TileType| t != TileType::Floor ==> #[trigger] floor_count(tiles.push(t)) == floor_count(tiles),
        (forall|i: int| 0 <= i < tiles.len() ==> tiles[i] == TileType::Floor) ==> floor_count(tiles) == tiles.len(),
        (forall|i: int| 0 <= i < tiles.len() ==> tiles[i] != TileType::Floor) ==> floor_count(tiles) == 0,
    decreases tiles.len(),
{
    assert(tiles.push(TileType::Floor).drop_last() =~= tiles);
    assert forall|t: TileType| t != TileType::Floor implies #[trigger] floor_count(tiles.push(t)) == floor_count(tiles) by {
        assert(tiles.push(t).drop_last() =~= tiles);
    }
    if tiles.len() > 0 {
        law_floor_count_counts(tiles.drop_last());
        assert(tiles.last() == tiles[tiles.len() - 1]);
        if forall|i: int| 0 <= i < tiles.len() ==> tiles[i] == TileType::Floor {
            assert forall|i: int| 0 <= i < tiles.drop_last().len() implies tiles.drop_last()[i] == TileType::Floor by {
                assert(tiles.drop_last()[i] == tiles[i]);
            }
        }
        if forall|i: int| 0 <= i < tiles.len() ==> tiles[i] != TileType::Floor {
            assert forall|i: int| 0 <= i < tiles.drop_last().len() implies tiles.drop_last()[i] != TileType::Floor by {
                assert(tiles.drop_last()[i] == tiles[i]);
            }
        }
    }
}

/// A provided ("Healing", n) gives the effect of healing by n.
proof fn lemma_effects_heal(v: Seq<(String, i32)>, k: int)
    requires
        0 <= k < v.len(),
        v[k].0@ == "Healing"@,
    ensures
        effects_spec(v).contains(Provided::Healing(v[k].1)),
    decreases v.len(),
{
    let front = effects_spec(v.drop_last());
    if k == v.len() - 1 {
        assert(v.last() == v[k]);
        assert(effects_spec(v) == front + seq![Provided::Healing(v[k].1)]);
        assert(effects_spec(v)[front.len() as int] == Provided::Healing(v[k].1));
    } else {
        assert(v.drop_last()[k] == v[k]);
        lemma_effects_heal(v.drop_last(), k);
        let j = choose|j: int| 0 <= j < front.len() && front[j] == Provided::Healing(v[k].1);
        assert(effects_spec(v)[j] == front[j]);
    }
}

/// Names other than "Armor" give no armor effect.
proof fn lemma_effects_no_armor(v: Seq<(String, i32)>)
    requires
        forall|k: int| 0 <= k < v.len() ==> (#[trigger] v[k]).0@ != "Armor"@,
    ensures
        forall|j: int| 0 <= j < effects_spec(v).len() ==> !(#[trigger] effects_spec(v)[j] is Armor),
    decreases v.len(),
{
    if v.len() > 0 {
        assert forall|k: int| 0 <= k < v.drop_last().len() implies (#[trigger] v.drop_last()[k]).0@ != "Armor"@ by {
            assert(v.drop_last()[k] == v[k]);
        }
        lemma_effects_no_armor(v.drop_last());
        assert(v.last() == v[v.len() - 1]);
        let front = effects_spec(v.drop_last());
        assert forall|j: int| 0 <= j < effects_spec(v).len() implies !(#[trigger] effects_spec(v)[j] is Armor) by {
            if j < front.len() {
                assert(effects_spec(v)[j] == front[j]);
            }
        }
    }
}

/// Each effect becomes the addition of its component.
proof fn lemma_effect_adds_hold(e: legion::Entity, es: Seq<Provided>, x: Provided)
    requires
        es.contains(x),
    ensures
        effect_adds(e, es).contains(Queued::Add(e, crate::spawner::template::effect_part(x))),
    decreases es.len(),
{
    let front = effect_adds(e, es.drop_last());
    if es.last() == x {
        assert(effect_adds(e, es)[front.len() as int] == Queued::Add(e, crate::spawner::template::effect_part(x)));
    } else {
        let i = choose|i: int| 0 <= i < es.len() && es[i] == x;
        assert(es.drop_last()[i] == x);
        lemma_effect_adds_hold(e, es.drop_last(), x);
        let j = choose|j: int| 0 <= j < front.len() && front[j] == Queued::Add(e, crate::spawner::template::effect_part(x));
        assert(effect_adds(e, es)[j] == front[j]);
    }
}

/// Effects without armor add no armor component.
proof fn lemma_effect_adds_no_armor(e: legion::Entity, es: Seq<Provided>)
    requires
        forall|j: int| 0 <= j < es.len() ==> !(#[trigger] es[j] is Armor),
    ensures
        forall|j: int| 0 <= j < effect_adds(e, es).len() ==> !(#[trigger] effect_adds(e, es)[j] matches Queued::Add(_, Part::ArmorGain(_))),
    decreases es.len(),
{
    if es.len() > 0 {
        assert forall|j: int| 0 <= j < es.drop_last().len() implies !(#[trigger] es.drop_last()[j] is Armor) by {
            assert(es.drop_last()[j] == es[j]);
        }
        lemma_effect_adds_no_armor(e, es.drop_last());
        assert(es.last() == es[es.len() - 1]);
        let front = effect_adds(e, es.drop_last());
        assert forall|j: int| 0 <= j < effect_adds(e, es).len() implies !(#[trigger] effect_adds(e, es)[j] matches Queued::Add(_, Part::ArmorGain(_))) by {
            if j < front.len() {
                assert(effect_adds(e, es)[j] == front[j]);
            }
        }
    }
}

/// A template that provides ("Healing", n) gives its entity a healing
/// component of amount n.
pub proof fn law_healing_provides_healing(e: legion::Entity, t: Template, k: int)
    requires
        t.provides matches Some(v) && 0 <= k < v@.len() && v@[k].0@ == "Healing"@,
    ensures
        template_adds(e, t).contains(Queued::Add(e, Part::Healing(t.provides->0@[k].1))),
{
    let v = t.provides->0@;
    lemma_effects_heal(v, k);
    let es = effects_spec(v);
    lemma_effect_adds_hold(e, es, Provided::Healing(v[k].1));
    let adds = effect_adds(e, es);
    let j = choose|j: int| 0 <= j < adds.len() && adds[j] == Queued::Add(e, Part::Healing(v[k].1));
    let kind = match t.entity_type {
        crate::spawner::template::EntityType::Item => seq![Queued::Add(e, Part::Item)],
        crate::spawner::template::EntityType::Score => seq![Queued::Add(e, Part::ScoreItem)],
        crate::spawner::template::EntityType::Enemy => seq![
            Queued::Add(e, Part::Enemy),
            Queued::Add(e, Part::View(6, true, 0)),
            Queued::Add(e, Part::ChasingPlayer),
            Queued::Add(e, Part::Health(Health { current: t.hp->0, max: t.hp->0 })),
        ],
    };
    assert(template_adds(e, t)[kind.len() + j] == adds[j]);
}

/// A template gives its entity an armor component only where it provides
/// ("Armor", _).
pub proof fn law_armor_only_when_provided(e: legion::Entity, t: Template)
    requires
        t.provides matches Some(v) ==> forall|k: int| 0 <= k < v@.len() ==> (#[trigger] v@[k]).0@ != "Armor"@,
    ensures
        forall|j: int|
            0 <= j < template_adds(e, t).len() ==> !(#[trigger] template_adds(e, t)[j] matches Queued::Add(_, Part::ArmorGain(_))),
{
    let es = match t.provides {
        Some(v) => effects_spec(v@),
        None => Seq::<Provided>::empty(),
    };
    if t.provides is Some {
        lemma_effects_no_armor(t.provides->0@);
    }
    lemma_effect_adds_no_armor(e, es);
    let kind = match t.entity_type {
        crate::spawner::template::EntityType::Item => seq![Queued::Add(e, Part::Item)],
        crate::spawner::template::EntityType::Score => seq![Queued::Add(e, Part::ScoreItem)],
        crate::spawner::template::EntityType::Enemy => seq![
            Queued::Add(e, Part::Enemy),
            Queued::Add(e, Part::View(6, true, 0)),
            Queued::Add(e, Part::ChasingPlayer),
            Queued::Add(e, Part::Health(Health { current: t.hp->0, max: t.hp->0 })),
        ],
    };
    let adds = effect_adds(e, es);
    assert forall|j: int|
        0 <= j < template_adds(e, t).len() implies !(#[trigger] template_adds(e, t)[j] matches Queued::Add(_, Part::ArmorGain(_))) by {
        if kind.len() <= j < kind.len() + adds.len() {
            assert(template_adds(e, t)[j] == adds[j - kind.len()]);
        }
    }
}

/// A hit that reaches the player's health lets a stealing attacker take its
/// amount from the score, never below 0; a hit that the armor absorbs
/// steals nothing.
pub proof fn law_theft_on_hits_only(info: AttackInfo)
    requires
        attack_fits(info),
        info.victim_is_player,
        info.victim_health is Some,
        info.steals_score is Some,
        info.victim_score is Some,
    ensures
        ({
            let s = info.victim_score->0;
            let a = info.steals_score->0;
            &&& armor_phase(info).0.take_health ==> victim_score_after(info) == Some(
                Score { current: (if s.current - a > 0 { s.current - a } else { 0 }) as i32, ..s },
            )
            &&& !armor_phase(info).0.take_health ==> victim_score_after(info) == Some(s)
        }),
{
}

/// A cave is complete once a third of the map's tiles are floor.
pub proof fn law_cave_needs_a_third()
    ensures
        DESIRED_FLOOR == NUM_TILES / 3,
{
}

} // verus!
