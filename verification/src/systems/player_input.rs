//! Turning the player's key press into actions.

use vstd::prelude::*;
use legion::Entity;
use crate::components::{ActivateItem, Score, WantsToAttack, WantsToMove};
use crate::geometry::Point;
use crate::sounds::Sound;
use crate::systems::chasing::TurnCommand;

verus! {

/// The keys the game reacts to; every other key is `Other`.
#[derive(Clone, Copy, Debug, PartialEq, Eq, Structural)]
pub enum Key {
    Left,
    Right,
    Up,
    Down,
    G,
    Key6,
    Key7,
    Key8,
    Key9,
    Other,
}

/// What the input system reads of the world.
pub struct InputView {
    pub player: Entity,
    pub player_pos: Point,
    pub player_has_fov: bool,
    pub player_score: Option<Score>,
    /// Fountains (items that widen the view) on the floor, with the widening they give.
    pub fountains: Vec<(Entity, Point, i32)>,
    /// Gold on the floor, with the score it gives.
    pub gold: Vec<(Entity, Point, i32)>,
    /// Items on the floor, and whether each is a weapon.
    pub floor_items: Vec<(Entity, Point, bool)>,
    /// The weapons that the player carries.
    pub player_weapons: Vec<Entity>,
    /// The items that the player carries, in inventory order.
    pub player_items: Vec<Entity>,
    /// The enemies, with their positions.
    pub enemies: Vec<(Entity, Point)>,
}

/// What the input system does.
pub struct InputPlan {
    /// Whether the player's turn begins (any key does it).
    pub ends_turn: bool,
    /// Items taken off the floor (they lose their position).
    pub take_off_floor: Vec<Entity>,
    /// Whether the player's view widens (`FieldOfView::inc_fov`).
    pub widen_view: bool,
    /// The player's score afterwards.
    pub player_score: Option<Score>,
    /// Items that the player now carries.
    pub carry: Vec<Entity>,
    /// Entities to remove (carried weapons replaced by a new one).
    pub discard: Vec<Entity>,
    /// An item that the player uses.
    pub activate: Option<ActivateItem>,
    /// Attack and move requests.
    pub commands: Vec<TurnCommand>,
    pub sounds: Vec<Sound>,
}

/// The entities of a list that stand at `pos`, in order.
pub open spec fn valued_at(items: Seq<(Entity, Point, i32)>, pos: Point) -> Seq<Entity>
    decreases items.len(),
{
    if items.len() == 0 {
        Seq::empty()
    } else {
        valued_at(items.drop_last(), pos) + (if items.last().1 == pos { seq![items.last().0] } else { Seq::empty() })
    }
}

/// The sum of the values of the entities of a list that stand at `pos`.
pub open spec fn value_at(items: Seq<(Entity, Point, i32)>, pos: Point) -> int
    decreases items.len(),
{
    if items.len() == 0 {
        0
    } else {
        value_at(items.drop_last(), pos) + (if items.last().1 == pos { items.last().2 as int } else { 0 })
    }
}

/// Picking up the floor items at `pos` in order, starting with `held`
/// items carried and the player's carried weapons `weapons`: the items
/// taken, the weapons discarded, the sounds, the number carried afterwards,
/// and whether the carried weapons are already discarded. The player never
/// carries more than 4 items: an item is taken only while fewer than 4 are
/// carried, and a weapon also when it replaces carried weapons (which are
/// then discarded), so that the count does not rise above 4.
pub open spec fn pickup(items: Seq<(Entity, Point, bool)>, pos: Point, weapons: Seq<Entity>, held: int) -> (
    Seq<Entity>,
    Seq<Entity>,
    Seq<Sound>,
    int,
    bool,
)
    decreases items.len(),
{
    if items.len() == 0 {
        (Seq::empty(), Seq::empty(), Seq::empty(), held, false)
    } else {
        let (t, d, s, n, swapped) = pickup(items.drop_last(), pos, weapons, held);
        let it = items.last();
        if it.1 != pos {
            (t, d, s, n, swapped)
        } else if it.2 {
            let freed = if swapped { 0 } else { weapons.len() as int };
            if n + 1 - freed <= 4 {
                (
                    t.push(it.0),
                    d + (if swapped { Seq::empty() } else { weapons }),
                    s.push(Sound::SwordUnsheathe),
                    n + 1 - freed,
                    true,
                )
            } else {
                (t, d, s, n, swapped)
            }
        } else if n < 4 {
            (t.push(it.0), d, s.push(Sound::ItemPickup), n + 1, swapped)
        } else {
            (t, d, s, n, swapped)
        }
    }
}

/// Whether some entity of a list stands at `pos`.
pub open spec fn some_at(items: Seq<(Entity, Point, i32)>, pos: Point) -> bool {
    exists|i: int| 0 <= i < items.len() && items[i].1 == pos
}

/// Whether the floor items at the player's position are picked up: not when
/// gold was picked up.
pub open spec fn picks_items(v: InputView) -> bool {
    !some_at(v.gold@, v.player_pos)
}

/// The attacks on the enemies at `dest`, in order.
pub open spec fn enemy_attacks(player: Entity, dest: Point, enemies: Seq<(Entity, Point)>) -> Seq<TurnCommand>
    decreases enemies.len(),
{
    if enemies.len() == 0 {
        Seq::empty()
    } else {
        enemy_attacks(player, dest, enemies.drop_last()) + (if enemies.last().1 == dest {
            seq![TurnCommand::Attack(WantsToAttack { attacker: player, victim: enemies.last().0 })]
        } else {
            Seq::empty()
        })
    }
}

/// The player's step to `dest`: attacks on the enemies there, or a move when there is none.
pub open spec fn player_step(player: Entity, dest: Point, enemies: Seq<(Entity, Point)>) -> Seq<TurnCommand> {
    if exists|i: int| 0 <= i < enemies.len() && enemies[i].1 == dest {
        enemy_attacks(player, dest, enemies)
    } else {
        seq![TurnCommand::Move(WantsToMove { entity: player, destination: dest })]
    }
}

/// The direction of a movement key, if it is one.
pub open spec fn key_delta(k: Key) -> Option<Point> {
    match k {
        Key::Left => Some(Point { x: -1i32, y: 0 }),
        Key::Right => Some(Point { x: 1, y: 0 }),
        Key::Up => Some(Point { x: 0, y: -1i32 }),
        Key::Down => Some(Point { x: 0, y: 1 }),
        _ => None,
    }
}

/// The inventory slot that a use key selects, if it is one.
pub open spec fn key_slot(k: Key) -> Option<int> {
    match k {
        Key::Key6 => Some(0),
        Key::Key7 => Some(1),
        Key::Key8 => Some(2),
        Key::Key9 => Some(3),
        _ => None,
    }
}

/// Whether picking up the gold at the player's position stays within
/// `i32`: every partial sum of its values, and the score with it added.
pub open spec fn gold_fits(v: InputView) -> bool {
    &&& forall|k: int| 0 <= k <= v.gold@.len() ==> i32::MIN <= #[trigger] value_at(v.gold@.take(k), v.player_pos) <= i32::MAX
    &&& v.player_score matches Some(s) ==> i32::MIN <= s.current + value_at(v.gold@, v.player_pos) <= i32::MAX
}

/// Whether the arithmetic of a key press stays within `i32`: a movement key
/// steps the player's position by one, and `G` adds up the gold there; no
/// other key, and no key at all, computes anything.
pub open spec fn input_fits(key: Option<Key>, v: InputView) -> bool {
    match key {
        Some(k) => {
            &&& key_delta(k) matches Some(d) ==> v.player_pos.can_add(d)
            &&& k == Key::G ==> gold_fits(v)
        },
        None => true,
    }
}

/// Whether the input system can run on `key` and `view` without
/// overflow: [`input_fits`], computed. A caller tests it before [`player_input`].
pub fn input_fits_check(key: Option<Key>, view: &InputView) -> (b: bool)
    ensures
        b == input_fits(key, *view),
{
    let k = match key {
        Some(k) => k,
        None => {
            return true;
        },
    };
    let pos = view.player_pos;
    match k {
        Key::Left => {
            return pos.x != i32::MIN;
        },
        Key::Right => {
            return pos.x != i32::MAX;
        },
        Key::Up => {
            return pos.y != i32::MIN;
        },
        Key::Down => {
            return pos.y != i32::MAX;
        },
        Key::G => {},
        _ => {
            return true;
        },
    }
    let ghost g = view.gold@;
    let mut total: i64 = 0;
    let mut i: usize = 0;
    while i < view.gold.len()
        invariant
            g == view.gold@,
            pos == view.player_pos,
            key == Some(Key::G),
            i <= g.len(),
            total == value_at(g.take(i as int), pos),
            forall|k: int| 0 <= k <= i ==> i32::MIN <= #[trigger] value_at(g.take(k), pos) <= i32::MAX,
        decreases g.len() - i,
    {
        let (_e, p, amount) = view.gold[i];
        let next: i64 = if p == pos { total + amount as i64 } else { total };
        proof {
            assert(g.take(i + 1).drop_last() =~= g.take(i as int));
            assert(g.take(i + 1).last() == g[i as int]);
        }
        if next < i32::MIN as i64 || next > i32::MAX as i64 {
            assert(value_at(g.take(i + 1), pos) == next);
            return false;
        }
        total = next;
        i += 1;
    }
    proof {
        assert(g.take(g.len() as int) =~= g);
    }
    if let Some(s) = view.player_score {
        let sum: i64 = s.current as i64 + total;
        if sum < i32::MIN as i64 || sum > i32::MAX as i64 {
            return false;
        }
    }
    true
}

/// The entities of `items` at `pos`, and the sum of their values.
fn collect_at(items: &Vec<(Entity, Point, i32)>, pos: Point) -> (r: (Vec<Entity>, i32, bool))
    requires
        forall|k: int| 0 <= k <= items@.len() ==> i32::MIN <= #[trigger] value_at(items@.take(k), pos) <= i32::MAX,
    ensures
        r.0@ == valued_at(items@, pos),
        r.1 == value_at(items@, pos),
        r.2 == some_at(items@, pos),
{
    let mut found: Vec<Entity> = Vec::new();
    let mut total: i32 = 0;
    let mut any = false;
    let mut i: usize = 0;
    while i < items.len()
        invariant
            i <= items.len(),
            forall|k: int| 0 <= k <= items@.len() ==> i32::MIN <= #[trigger] value_at(items@.take(k), pos) <= i32::MAX,
            found@ == valued_at(items@.take(i as int), pos),
            total == value_at(items@.take(i as int), pos),
            any == some_at(items@.take(i as int), pos),
        decreases items.len() - i,
    {
        proof {
            assert(items@.take(i + 1).drop_last() =~= items@.take(i as int));
            assert(i32::MIN <= value_at(items@.take(i + 1), pos) <= i32::MAX);
        }
        let (e, p, amount) = items[i];
        if p == pos {
            found.push(e);
            total = total + amount;
            any = true;
        }
        proof {
            let now = items@.take(i + 1);
            let before = items@.take(i as int);
            assert(now[i as int] == items@[i as int]);
            if some_at(before, pos) {
                let w = choose|w: int| 0 <= w < before.len() && before[w].1 == pos;
                assert(now[w] == before[w]);
            }
            if some_at(now, pos) && p != pos {
                let w = choose|w: int| 0 <= w < now.len() && now[w].1 == pos;
                assert(before[w] == now[w]);
            }
            assert(found@ =~= valued_at(now, pos));
        }
        i += 1;
    }
    proof {
        assert(items@.take(items.len() as int) =~= items@);
    }
    (found, total, any)
}

/// Picks up the floor items at `pos` (see [`pickup`]), the player carrying
/// `held` items and the weapons `weapons`: the items taken, the weapons
/// discarded and the sounds.
fn pick_up_at(items: &Vec<(Entity, Point, bool)>, pos: Point, weapons: &Vec<Entity>, held: usize) -> (r: (
    Vec<Entity>,
    Vec<Entity>,
    Vec<Sound>,
))
    ensures
        ({
            let (t, d, s, _n, _w) = pickup(items@, pos, weapons@, held as int);
            r.0@ == t && r.1@ == d && r.2@ == s
        }),
{
    let mut taken: Vec<Entity> = Vec::new();
    let mut discard: Vec<Entity> = Vec::new();
    let mut sounds: Vec<Sound> = Vec::new();
    let mut count: i128 = held as i128;
    let mut swapped = false;
    let mut i: usize = 0;
    while i < items.len()
        invariant
            i <= items.len(),
            ({
                let (t, d, s, n, w) = pickup(items@.take(i as int), pos, weapons@, held as int);
                taken@ == t && discard@ == d && sounds@ == s && count == n && swapped == w
            }),
            !swapped ==> 0 <= count,
            -(weapons@.len() as int) <= count <= held + i,
        decreases items.len() - i,
    {
        proof {
            assert(items@.take(i + 1).drop_last() =~= items@.take(i as int));
            assert(items@.take(i + 1).last() == items@[i as int]);
        }
        let (e, p, is_weapon) = items[i];
        if p == pos {
            if is_weapon {
                let freed: i128 = if swapped { 0 } else { weapons.len() as i128 };
                if count + 1 - freed <= 4 {
                    taken.push(e);
                    if !swapped {
                        let mut j: usize = 0;
                        let ghost start = discard@;
                        while j < weapons.len()
                            invariant
                                j <= weapons.len(),
                                discard@ == start + weapons@.take(j as int),
                            decreases weapons.len() - j,
                        {
                            discard.push(weapons[j]);
                            proof {
                                assert(weapons@.take(j + 1) =~= weapons@.take(j as int).push(weapons@[j as int]));
                            }
                            j += 1;
                        }
                        proof {
                            assert(weapons@.take(weapons.len() as int) =~= weapons@);
                        }
                    } else {
                        assert(discard@ + Seq::<Entity>::empty() =~= discard@);
                    }
                    sounds.push(Sound::SwordUnsheathe);
                    count = count + 1 - freed;
                    swapped = true;
                }
            } else if count < 4 {
                taken.push(e);
                sounds.push(Sound::ItemPickup);
                count = count + 1;
            }
        }
        i += 1;
    }
    proof {
        assert(items@.take(items.len() as int) =~= items@);
    }
    (taken, discard, sounds)
}

/// The player's step to `dest`: attacks on every enemy there, or a move.
pub fn step_player(player: Entity, dest: Point, enemies: &Vec<(Entity, Point)>) -> (cmds: Vec<TurnCommand>)
    ensures
        cmds@ == player_step(player, dest, enemies@),
{
    let mut cmds: Vec<TurnCommand> = Vec::new();
    let mut hit_something = false;
    let mut i: usize = 0;
    while i < enemies.len()
        invariant
            i <= enemies.len(),
            cmds@ == enemy_attacks(player, dest, enemies@.take(i as int)),
            hit_something <==> exists|k: int| 0 <= k < i && enemies@[k].1 == dest,
            !hit_something ==> cmds@.len() == 0,
        decreases enemies.len() - i,
    {
        proof {
            assert(enemies@.take(i + 1).drop_last() =~= enemies@.take(i as int));
        }
        let (e, p) = enemies[i];
        if p == dest {
            hit_something = true;
            cmds.push(TurnCommand::Attack(WantsToAttack { attacker: player, victim: e }));
        }
        proof {
            assert(cmds@ =~= enemy_attacks(player, dest, enemies@.take(i + 1)));
        }
        i += 1;
    }
    proof {
        assert(enemies@.take(enemies.len() as int) =~= enemies@);
    }
    if !hit_something {
        cmds.push(TurnCommand::Move(WantsToMove { entity: player, destination: dest }));
        proof {
            assert(cmds@ =~= seq![TurnCommand::Move(WantsToMove { entity: player, destination: dest })]);
        }
    }
    cmds
}

/// The input system. Without a key nothing happens. A movement key steps the
/// player (attacking the enemies in the way, else moving). `G` picks up what
/// lies at the player's position: fountains widen the view, gold adds to the
/// score; when there was no gold, the floor items are taken into the
/// inventory while it holds fewer than 4 items, a weapon also where it
/// replaces the carried weapons (see [`pickup`]), so that the player never
/// carries more than 4. Keys 6 to 9 use the
/// inventory item of that slot. Any key begins the player's turn.
pub fn player_input(key: Option<Key>, view: &InputView) -> (plan: InputPlan)
    requires
        input_fits(key, *view),
    ensures
        plan.ends_turn == (key is Some),
        key is None ==> plan.take_off_floor@.len() == 0 && !plan.widen_view && plan.player_score == view.player_score
            && plan.carry@.len() == 0 && plan.discard@.len() == 0 && plan.activate is None && plan.commands@.len() == 0
            && plan.sounds@.len() == 0,
        key == Some(Key::G) ==> {
            let pos = view.player_pos;
            let picks = picks_items(*view);
            let got = pickup(view.floor_items@, pos, view.player_weapons@, view.player_items@.len() as int);
            let fountain = some_at(view.fountains@, pos);
            let gold = some_at(view.gold@, pos);
            let widen = fountain && view.player_has_fov;
            let coin = gold && view.player_score is Some;
            &&& plan.take_off_floor@ == valued_at(view.fountains@, pos) + valued_at(view.gold@, pos) + (if picks {
                got.0
            } else {
                Seq::empty()
            })
            &&& plan.widen_view == widen
            &&& plan.player_score == (if coin {
                Some(Score { current: (view.player_score->0.current + value_at(view.gold@, pos)) as i32, ..view.player_score->0 })
            } else {
                view.player_score
            })
            &&& plan.carry@ == (if picks { got.0 } else { Seq::empty() })
            &&& plan.discard@ == (if picks { got.1 } else { Seq::empty() })
            &&& plan.sounds@ == (if widen { seq![Sound::Bubble] } else { Seq::empty() }) + (if coin {
                seq![Sound::Coin]
            } else {
                Seq::empty()
            }) + (if picks { got.2 } else { Seq::empty() })
            &&& plan.activate is None
            &&& plan.commands@.len() == 0
        },
        key is Some && key_slot(key->0) is Some ==> {
            let n = key_slot(key->0)->0;
            &&& plan.activate == (if n < view.player_items@.len() {
                Some(ActivateItem { used_by: view.player, item: view.player_items@[n] })
            } else {
                None
            })
            &&& plan.take_off_floor@.len() == 0 && !plan.widen_view && plan.player_score == view.player_score
            &&& plan.carry@.len() == 0 && plan.discard@.len() == 0 && plan.commands@.len() == 0 && plan.sounds@.len() == 0
        },
        key is Some && key_delta(key->0) is Some ==> {
            &&& plan.commands@ == player_step(view.player, view.player_pos.spec_plus(key_delta(key->0)->0), view.enemies@)
            &&& plan.take_off_floor@.len() == 0 && !plan.widen_view && plan.player_score == view.player_score
            &&& plan.carry@.len() == 0 && plan.discard@.len() == 0 && plan.activate is None && plan.sounds@.len() == 0
        },
        key == Some(Key::Other) ==> plan.take_off_floor@.len() == 0 && !plan.widen_view && plan.player_score
            == view.player_score && plan.carry@.len() == 0 && plan.discard@.len() == 0 && plan.activate is None
            && plan.commands@.len() == 0 && plan.sounds@.len() == 0,
{
    let mut plan = InputPlan {
        ends_turn: false,
        take_off_floor: Vec::new(),
        widen_view: false,
        player_score: view.player_score,
        carry: Vec::new(),
        discard: Vec::new(),
        activate: None,
        commands: Vec::new(),
        sounds: Vec::new(),
    };
    let k = match key {
        Some(k) => k,
        None => {
            return plan;
        },
    };
    plan.ends_turn = true;
    let delta = match k {
        Key::Left => Point::new(-1, 0),
        Key::Right => Point::new(1, 0),
        Key::Up => Point::new(0, -1),
        Key::Down => Point::new(0, 1),
        Key::G => {
            let pos = view.player_pos;
            let (mut fountains, picked_up_fountain) = collect_fountains(&view.fountains, pos);
            let (mut gold, score_amt, picked_up_gold) = collect_at(&view.gold, pos);
            plan.take_off_floor.append(&mut fountains);
            plan.take_off_floor.append(&mut gold);
            if picked_up_fountain && view.player_has_fov {
                plan.widen_view = true;
                plan.sounds.push(Sound::Bubble);
            }
            if picked_up_gold {
                if let Some(s) = view.player_score {
                    plan.sounds.push(Sound::Coin);
                    plan.player_score = Some(Score { current: s.current + score_amt, ..s });
                }
            } else {
                let (items, mut discard, mut sounds) = pick_up_at(
                    &view.floor_items,
                    pos,
                    &view.player_weapons,
                    view.player_items.len(),
                );
                extend_entities(&mut plan.take_off_floor, &items);
                plan.carry = items;
                plan.discard.append(&mut discard);
                plan.sounds.append(&mut sounds);
            }
            Point::new(0, 0)
        },
        Key::Key6 => {
            plan.activate = nth_item(view.player, &view.player_items, 0);
            Point::zero()
        },
        Key::Key7 => {
            plan.activate = nth_item(view.player, &view.player_items, 1);
            Point::zero()
        },
        Key::Key8 => {
            plan.activate = nth_item(view.player, &view.player_items, 2);
            Point::zero()
        },
        Key::Key9 => {
            plan.activate = nth_item(view.player, &view.player_items, 3);
            Point::zero()
        },
        Key::Other => Point::new(0, 0),
    };
    if delta.x != 0 || delta.y != 0 {
        let destination = view.player_pos.plus(delta);
        plan.commands = step_player(view.player, destination, &view.enemies);
    }
    plan
}

/// The fountains at `pos`, and whether there is one.
fn collect_fountains(items: &Vec<(Entity, Point, i32)>, pos: Point) -> (r: (Vec<Entity>, bool))
    ensures
        r.0@ == valued_at(items@, pos),
        r.1 == some_at(items@, pos),
{
    let mut found: Vec<Entity> = Vec::new();
    let mut any = false;
    let mut i: usize = 0;
    while i < items.len()
        invariant
            i <= items.len(),
            found@ == valued_at(items@.take(i as int), pos),
            any == some_at(items@.take(i as int), pos),
        decreases items.len() - i,
    {
        proof {
            assert(items@.take(i + 1).drop_last() =~= items@.take(i as int));
        }
        let (e, p, _amount) = items[i];
        if p == pos {
            found.push(e);
            any = true;
        }
        proof {
            let now = items@.take(i + 1);
            let before = items@.take(i as int);
            assert(now[i as int] == items@[i as int]);
            if some_at(before, pos) {
                let w = choose|w: int| 0 <= w < before.len() && before[w].1 == pos;
                assert(now[w] == before[w]);
            }
            if some_at(now, pos) && p != pos {
                let w = choose|w: int| 0 <= w < now.len() && now[w].1 == pos;
                assert(before[w] == now[w]);
            }
            assert(found@ =~= valued_at(now, pos));
        }
        i += 1;
    }
    proof {
        assert(items@.take(items.len() as int) =~= items@);
    }
    (found, any)
}

/// Appends the entities of `src` to `dst`.
fn extend_entities(dst: &mut Vec<Entity>, src: &Vec<Entity>)
    ensures
        final(dst)@ == old(dst)@ + src@,
{
    let mut i: usize = 0;
    while i < src.len()
        invariant
            i <= src.len(),
            dst@ == old(dst)@ + src@.take(i as int),
        decreases src.len() - i,
    {
        dst.push(src[i]);
        proof {
            assert(src@.take(i + 1) =~= src@.take(i as int).push(src@[i as int]));
        }
        i += 1;
    }
    proof {
        assert(src@.take(src.len() as int) =~= src@);
    }
}

/// The request to use the item in inventory slot `n`, if the slot is filled.
pub fn nth_item(player: Entity, items: &Vec<Entity>, n: usize) -> (r: Option<ActivateItem>)
    ensures
        r == (if n < items@.len() { Some(ActivateItem { used_by: player, item: items@[n as int] }) } else { None }),
{
    if n < items.len() {
        Some(ActivateItem { used_by: player, item: items[n] })
    } else {
        None
    }
}

} // verus!
