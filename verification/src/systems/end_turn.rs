//! The end of a turn: the next turn state, and the table of best scores.
//!
//! The score table is a text file with one score per line. Reading and
//! writing the file happens outside this module; here the file's bytes are
//! turned into scores and the updated table back into bytes. The file is
//! UTF-8 text, and line breaks and digits are single ASCII bytes that never
//! occur inside the encoding of another character, so working on bytes reads
//! the same lines and digits as working on characters.

use vstd::prelude::*;
use legion::Entity;
use crate::components::{Health, Player, Score, MAX_LEVEL};
use crate::geometry::Point;
use crate::map::{spec_index_in_map, spec_map_idx, GameMap, TileType};

verus! {

/// The byte of a line break.
pub open spec fn is_newline(b: u8) -> bool {
    b == 10
}

/// Whether a byte is a decimal digit.
pub open spec fn is_digit(b: u8) -> bool {
    48 <= b <= 57
}

/// The value of a string of decimal digits.
pub open spec fn digits_value(ds: Seq<u8>) -> nat
    decreases ds.len(),
{
    if ds.len() == 0 {
        0
    } else {
        digits_value(ds.drop_last()) * 10 + (ds.last() - 48) as nat
    }
}

/// The score that the digits of one line stand for: none when the line has
/// no digit or the number does not fit an `i32`.
pub open spec fn line_score(ds: Seq<u8>) -> Seq<i32> {
    if ds.len() > 0 && digits_value(ds) <= i32::MAX {
        seq![digits_value(ds) as i32]
    } else {
        Seq::<i32>::empty()
    }
}

/// Reading a prefix of the file: the scores of the lines already ended, and
/// the digits of the line still open.
pub open spec fn scan_scores(s: Seq<u8>) -> (Seq<i32>, Seq<u8>)
    decreases s.len(),
{
    if s.len() == 0 {
        (Seq::<i32>::empty(), Seq::<u8>::empty())
    } else {
        let (done, cur) = scan_scores(s.drop_last());
        let c = s.last();
        if is_newline(c) {
            (done + line_score(cur), Seq::<u8>::empty())
        } else if is_digit(c) {
            (done, cur.push(c))
        } else {
            (done, cur)
        }
    }
}

/// The scores that a score file holds: for each line, in order, the number
/// made of its digits (the other characters are ignored), where there is one
/// that fits an `i32`.
pub open spec fn file_scores(s: Seq<u8>) -> Seq<i32> {
    scan_scores(s).0 + line_score(scan_scores(s).1)
}

/// The decimal text of a natural number.
pub open spec fn nat_text(n: nat) -> Seq<u8>
    decreases n,
{
    if n < 10 {
        seq![(48 + n) as u8]
    } else {
        nat_text(n / 10).push((48 + n % 10) as u8)
    }
}

/// The decimal text of an integer, with a leading minus sign when negative.
pub open spec fn int_text(n: int) -> Seq<u8> {
    if n < 0 {
        seq![45u8] + nat_text((-n) as nat)
    } else {
        nat_text(n as nat)
    }
}

/// The text of a score table: each score, then a line break.
pub open spec fn scores_text(s: Seq<i32>) -> Seq<u8>
    decreases s.len(),
{
    if s.len() == 0 {
        Seq::<u8>::empty()
    } else {
        scores_text(s.drop_last()) + int_text(s.last() as int) + seq![10u8]
    }
}

/// Whether a sequence is in descending order.
pub open spec fn sorted_desc(s: Seq<i32>) -> bool {
    forall|i: int, j: int| 0 <= i < j < s.len() ==> s[i] >= s[j]
}

/// The largest element of a sequence, given as `Some(m)`; an empty sequence gives `Some(0)`.
pub open spec fn is_max_or_zero(s: Seq<i32>, m: i32) -> bool {
    if s.len() == 0 {
        m == 0
    } else {
        s.contains(m) && forall|i: int| 0 <= i < s.len() ==> s[i] <= m
    }
}

proof fn lemma_digits_push(ds: Seq<u8>, d: u8)
    ensures
        digits_value(ds.push(d)) == digits_value(ds) * 10 + (d - 48) as nat,
{
    assert(ds.push(d).drop_last() =~= ds);
}

/// The scores in a score file, line by line.
pub fn parse_scores(contents: &[u8]) -> (scores: Vec<i32>)
    ensures
        scores@ == file_scores(contents@),
{
    let mut scores: Vec<i32> = Vec::new();
    let mut acc: u64 = 0;
    let mut ndigits: usize = 0;
    let mut too_big: bool = false;
    let ghost mut cur: Seq<u8> = Seq::empty();
    let mut i: usize = 0;
    while i < contents.len()
        invariant
            i <= contents.len(),
            scan_scores(contents@.take(i as int)) == (scores@, cur),
            ndigits == cur.len(),
            ndigits <= i,
            too_big <==> digits_value(cur) > i32::MAX,
            !too_big ==> acc == digits_value(cur),
        decreases contents.len() - i,
    {
        let c = contents[i];
        proof {
            assert(contents@.take(i + 1).drop_last() =~= contents@.take(i as int));
            assert(contents@.take(i + 1).last() == c);
        }
        if c == 10u8 {
            if ndigits > 0 && !too_big {
                scores.push(acc as i32);
            }
            proof {
                assert(scores@ =~= scan_scores(contents@.take(i as int)).0 + line_score(cur));
                cur = Seq::empty();
            }
            acc = 0;
            ndigits = 0;
            too_big = false;
        } else if 48u8 <= c && c <= 57u8 {
            proof {
                lemma_digits_push(cur, c);
            }
            if !too_big {
                acc = acc * 10 + (c - 48u8) as u64;
                if acc > 2147483647u64 {
                    too_big = true;
                }
            }
            proof {
                cur = cur.push(c);
            }
            ndigits = ndigits + 1;
        }
        i += 1;
    }
    proof {
        assert(contents@.take(contents.len() as int) =~= contents@);
    }
    if ndigits > 0 && !too_big {
        scores.push(acc as i32);
    }
    proof {
        assert(scores@ =~= file_scores(contents@));
    }
    scores
}

/// The largest score of a list, or 0 for an empty list; never `None`.
pub fn vec_max(vector: &Vec<i32>) -> (m: Option<i32>)
    ensures
        m is Some,
        is_max_or_zero(vector@, m->0),
{
    if vector.len() != 0 {
        let mut temp_max = vector[0];
        let mut i: usize = 0;
        while i < vector.len()
            invariant
                0 < vector.len(),
                i <= vector.len(),
                vector@.contains(temp_max),
                forall|j: int| 0 <= j < i ==> vector@[j] <= temp_max,
            decreases vector.len() - i,
        {
            let val = vector[i];
            if val >= temp_max {
                temp_max = val;
            }
            i += 1;
        }
        Some(temp_max)
    } else {
        Some(0)
    }
}

/// Whether a list holds a value.
pub fn vec_contains(v: &Vec<i32>, x: i32) -> (b: bool)
    ensures
        b == v@.contains(x),
{
    let mut i: usize = 0;
    while i < v.len()
        invariant
            i <= v.len(),
            forall|j: int| 0 <= j < i ==> v@[j] != x,
        decreases v.len() - i,
    {
        if v[i] == x {
            return true;
        }
        i += 1;
    }
    false
}

/// The same values, largest first.
pub fn sort_descending(v: &Vec<i32>) -> (out: Vec<i32>)
    ensures
        sorted_desc(out@),
        out@.to_multiset() == v@.to_multiset(),
{
    broadcast use vstd::seq_lib::group_to_multiset_ensures;

    let mut out: Vec<i32> = Vec::new();
    let mut i: usize = 0;
    while i < v.len()
        invariant
            i <= v.len(),
            sorted_desc(out@),
            out@.to_multiset() == v@.take(i as int).to_multiset(),
        decreases v.len() - i,
    {
        let x = v[i];
        let mut j: usize = 0;
        while j < out.len() && out[j] >= x
            invariant
                j <= out.len(),
                forall|k: int| 0 <= k < j ==> out@[k] >= x,
            decreases out.len() - j,
        {
            j += 1;
        }
        let ghost before = out@;
        out.insert(j, x);
        proof {
            before.insert_ensures(j as int, x);
            assert(v@.take(i + 1) =~= v@.take(i as int).push(x));
            assert(out@ == before.insert(j as int, x));
            vstd::seq_lib::to_multiset_insert(before, j as int, x);
            vstd::seq_lib::to_multiset_build(v@.take(i as int), x);
            assert forall|a: int, b: int| 0 <= a < b < out@.len() implies out@[a] >= out@[b] by {
                if b < j {
                } else if b == j {
                } else if a < j {
                    assert(before[a] >= before[b - 1] || a >= b - 1);
                } else if a == j {
                    assert(before[b - 1] < x || b - 1 >= before.len() || b - 1 < j);
                } else {
                }
            }
        }
        i += 1;
    }
    proof {
        assert(v@.take(v.len() as int) =~= v@);
    }
    out
}

/// Appends the decimal text of a natural number.
fn push_nat_text(out: &mut Vec<u8>, m: u64)
    ensures
        final(out)@ == old(out)@ + nat_text(m as nat),
    decreases m,
{
    if m >= 10 {
        push_nat_text(out, m / 10);
    }
    out.push(48u8 + (m % 10) as u8);
    proof {
        if m >= 10 {
            assert(old(out)@ + nat_text(m as nat) =~= old(out)@ + nat_text((m / 10) as nat) + seq![(48 + m % 10) as u8]);
        } else {
            assert(old(out)@ + nat_text(m as nat) =~= old(out)@ + seq![(48 + m % 10) as u8]);
        }
    }
}

/// Appends the decimal text of an integer.
fn push_int_text(out: &mut Vec<u8>, n: i32)
    ensures
        final(out)@ == old(out)@ + int_text(n as int),
{
    if n < 0 {
        out.push(45u8);
        let m: u64 = (0i64 - n as i64) as u64;
        push_nat_text(out, m);
        proof {
            assert(old(out)@ + int_text(n as int) =~= old(out)@ + seq![45u8] + nat_text(m as nat));
        }
    } else {
        push_nat_text(out, n as u64);
    }
}

/// The text of a score table: each score, then a line break.
pub fn scores_to_text(scores: &Vec<i32>) -> (text: Vec<u8>)
    ensures
        text@ == scores_text(scores@),
{
    let mut text: Vec<u8> = Vec::new();
    let mut i: usize = 0;
    while i < scores.len()
        invariant
            i <= scores.len(),
            text@ == scores_text(scores@.take(i as int)),
        decreases scores.len() - i,
    {
        proof {
            assert(scores@.take(i + 1).drop_last() =~= scores@.take(i as int));
        }
        push_int_text(&mut text, scores[i]);
        text.push(10u8);
        proof {
            assert(text@ =~= scores_text(scores@.take(i + 1)));
        }
        i += 1;
    }
    proof {
        assert(scores@.take(scores.len() as int) =~= scores@);
    }
    text
}

/// Whether `n` beats every score of a table (an empty table counts as a best of 0).
pub open spec fn beats_all(s: Seq<i32>, n: i32) -> bool {
    if s.len() == 0 {
        n > 0
    } else {
        forall|i: int| 0 <= i < s.len() ==> s[i] < n
    }
}

/// The scores to keep: those of the file, with the new one added unless already there.
pub open spec fn scores_with(s: Seq<i32>, n: i32) -> Seq<i32> {
    if s.contains(n) {
        s
    } else {
        s.push(n)
    }
}

/// The outcome of recording a final score in the table of best scores.
pub struct ScoreUpdate {
    /// The score to show as final.
    pub final_score: i32,
    /// "New High Score!!!" when the score beats the table, else empty.
    pub message: String,
    /// The new table, best first.
    pub scores: Vec<i32>,
    /// The new contents of the score file.
    pub file_text: Vec<u8>,
}

/// Records `new_score` in a score table read from `contents`: the table
/// keeps its scores, gains the new one unless it is already there, and is
/// sorted best first; the message says whether the new score beats the best
/// of the old table.
pub fn score_handle(contents: &[u8], new_score: i32) -> (u: ScoreUpdate)
    ensures
        u.final_score == new_score,
        beats_all(file_scores(contents@), new_score) ==> u.message@ == "New High Score!!!"@,
        !beats_all(file_scores(contents@), new_score) ==> u.message@ == Seq::<char>::empty(),
        sorted_desc(u.scores@),
        u.scores@.to_multiset() == scores_with(file_scores(contents@), new_score).to_multiset(),
        u.file_text@ == scores_text(u.scores@),
{
    let mut scores = parse_scores(contents);
    let max_score = match vec_max(&scores) {
        Some(m) => m,
        None => 0,
    };
    let ghost read = scores@;
    if !vec_contains(&scores, new_score) {
        scores.push(new_score);
    }
    let sorted = sort_descending(&scores);
    let message = if new_score > max_score {
        "New High Score!!!".to_string()
    } else {
        String::new()
    };
    proof {
        if read.len() > 0 {
            if new_score > max_score {
                assert forall|i: int| 0 <= i < read.len() implies read[i] < new_score by {}
            } else {
                assert(read.contains(max_score));
            }
        }
    }
    let file_text = scores_to_text(&sorted);
    ScoreUpdate { final_score: new_score, message, scores: sorted, file_text }
}

/// Whose turn it is, or which screen the game shows.
#[derive(Clone, Copy, Debug, PartialEq, Eq, Structural)]
pub enum TurnState {
    Intro,
    AwaitingInput,
    PlayerTurn,
    MonsterTurn,
    GameOver,
    Victory,
    NextLevel,
}

/// What happened to the player at the end of a turn.
#[derive(Clone, Copy, Debug, PartialEq, Eq, Structural)]
pub enum TurnEvent {
    /// The player's health fell below 1: the final score is recorded.
    PlayerDied,
    /// The player stands on the tome: the final score is recorded.
    TomeReached,
}

/// The state after the turn, before the player's condition is looked at.
pub open spec fn next_turn_state(s: TurnState) -> TurnState {
    match s {
        TurnState::PlayerTurn => TurnState::MonsterTurn,
        TurnState::MonsterTurn => TurnState::AwaitingInput,
        _ => s,
    }
}

/// The state and the events after looking at the players `ps`, starting from `(s, ev)`.
pub open spec fn players_outcome(
    s: TurnState,
    ps: Seq<(Health, Point)>,
    tome: Point,
    tiles: Seq<TileType>,
) -> (TurnState, Seq<TurnEvent>)
    decreases ps.len(),
{
    if ps.len() == 0 {
        (s, Seq::<TurnEvent>::empty())
    } else {
        let (s0, ev0) = players_outcome(s, ps.drop_last(), tome, tiles);
        let (hp, pos) = ps.last();
        let dead = hp.current < 1;
        let won = pos == tome;
        let s1 = if dead { TurnState::GameOver } else { s0 };
        let s2 = if won { TurnState::Victory } else { s1 };
        let s3 = if tiles[spec_map_idx(pos.x as int, pos.y as int)] == TileType::Exit {
            TurnState::NextLevel
        } else {
            s2
        };
        let ev = ev0 + (if dead { seq![TurnEvent::PlayerDied] } else { Seq::empty() }) + (if won {
            seq![TurnEvent::TomeReached]
        } else {
            Seq::empty()
        });
        (s3, ev)
    }
}

/// Ends a turn. While input is awaited nothing changes. Otherwise the turn
/// passes (player to monsters, monsters to awaiting input), then for each
/// player in turn: health below 1 ends the game, standing on the tome wins it
/// (each also records the final score), and standing on the exit leads to
/// the next level; a later rule overrides an earlier one. `tome_pos` is the
/// tome's position, or (-1, -1) where there is none. The players'
/// positions must index the map only where they are looked at.
pub fn end_turn(
    turn_state: TurnState,
    players: &Vec<(Health, Point)>,
    tome_pos: Point,
    map: &GameMap,
) -> (r: (TurnState, Vec<TurnEvent>))
    requires
        map.wf(),
        turn_state != TurnState::AwaitingInput ==> forall|i: int|
            0 <= i < players@.len() ==> spec_index_in_map(#[trigger] players@[i].1),
    ensures
        turn_state == TurnState::AwaitingInput ==> r.0 == turn_state && r.1@.len() == 0,
        turn_state != TurnState::AwaitingInput ==> (r.0, r.1@) == players_outcome(
            next_turn_state(turn_state),
            players@,
            tome_pos,
            map.tiles@,
        ),
{
    if turn_state == TurnState::AwaitingInput {
        return (turn_state, Vec::new());
    }
    let mut new_state = match turn_state {
        TurnState::PlayerTurn => TurnState::MonsterTurn,
        TurnState::MonsterTurn => TurnState::AwaitingInput,
        _ => turn_state,
    };
    let mut events: Vec<TurnEvent> = Vec::new();
    let mut i: usize = 0;
    while i < players.len()
        invariant
            i <= players.len(),
            map.wf(),
            forall|k: int| 0 <= k < players@.len() ==> spec_index_in_map(#[trigger] players@[k].1),
            (new_state, events@) == players_outcome(
                next_turn_state(turn_state),
                players@.take(i as int),
                tome_pos,
                map.tiles@,
            ),
        decreases players.len() - i,
    {
        proof {
            assert(players@.take(i + 1).drop_last() =~= players@.take(i as int));
        }
        let (hp, pos) = players[i];
        assert(spec_index_in_map(players@[i as int].1));
        if hp.current < 1 {
            events.push(TurnEvent::PlayerDied);
            new_state = TurnState::GameOver;
        }
        if pos == tome_pos {
            events.push(TurnEvent::TomeReached);
            new_state = TurnState::Victory;
        }
        let idx = map.point2d_to_index(pos);
        if map.tiles[idx] == TileType::Exit {
            new_state = TurnState::NextLevel;
        }
        proof {
            let (s0, ev0) = players_outcome(next_turn_state(turn_state), players@.take(i as int), tome_pos, map.tiles@);
            assert(events@ =~= players_outcome(next_turn_state(turn_state), players@.take(i + 1), tome_pos, map.tiles@).1);
        }
        i += 1;
    }
    proof {
        assert(players@.take(players.len() as int) =~= players@);
    }
    (new_state, events)
}

/// Going down to the next level: the player's level theme and dungeon level
/// both advance by one, and the tome (rather than an exit) lies on the level
/// once the deepest level is reached.
pub fn descend(score: Score, player: Player) -> (r: (Score, Player, bool))
    requires
        score.level_theme < i32::MAX,
        player.map_level < u32::MAX,
    ensures
        r.0 == (Score { level_theme: (score.level_theme + 1) as i32, ..score }),
        r.1 == (Player { map_level: (player.map_level + 1) as u32 }),
        r.2 == (player.map_level + 1 == MAX_LEVEL),
{
    let next = Player { map_level: player.map_level + 1 };
    (Score { level_theme: score.level_theme + 1, ..score }, next, next.map_level == MAX_LEVEL)
}

/// What going down a level sets for the player and the turn.
pub struct Arrival {
    pub score: Score,
    pub player: Player,
    /// The player's position on the new level.
    pub position: Point,
    /// Whether the tome (rather than an exit) lies on the new level.
    pub place_tome: bool,
    pub turn_state: TurnState,
}

/// Going down to a new level whose start is `start`: the player's level
/// theme and dungeon level advance (see [`descend`]), the player stands at
/// the start, and the game awaits input. (Every field of view is marked to
/// be computed again with [`crate::components::FieldOfView::mark_dirty`].)
pub fn arrive(score: Score, player: Player, start: Point) -> (a: Arrival)
    requires
        score.level_theme < i32::MAX,
        player.map_level < u32::MAX,
    ensures
        a.score == (Score { level_theme: (score.level_theme + 1) as i32, ..score }),
        a.player == (Player { map_level: (player.map_level + 1) as u32 }),
        a.place_tome == (player.map_level + 1 == MAX_LEVEL),
        a.position == start,
        a.turn_state == TurnState::AwaitingInput,
{
    let (score, player, place_tome) = descend(score, player);
    Arrival { score, player, position: start, place_tome, turn_state: TurnState::AwaitingInput }
}

/// Sets out the goal of a new level: on the deepest level the tome is to be
/// placed at `goal` (the map stays as it is, and `true` comes back);
/// otherwise the tile at `goal` becomes the exit.
pub fn place_goal(map: &mut GameMap, tome_level: bool, goal: Point) -> (place_tome: bool)
    requires
        old(map).wf(),
        spec_index_in_map(goal),
    ensures
        place_tome == tome_level,
        final(map).wf(),
        final(map).revealed_tiles == old(map).revealed_tiles,
        final(map).key_carried == old(map).key_carried,
        final(map).spawned_points == old(map).spawned_points,
        final(map).prefab_indices == old(map).prefab_indices,
        final(map).tiles@ == (if tome_level {
            old(map).tiles@
        } else {
            old(map).tiles@.update(spec_map_idx(goal.x as int, goal.y as int), TileType::Exit)
        }),
{
    if !tome_level {
        let idx = map.point2d_to_index(goal);
        map.tiles.set(idx, TileType::Exit);
    }
    tome_level
}

/// The entities left behind when the player goes down a level: every
/// entity not marked as the player's own (the player itself and what it
/// carries), in order.
pub open spec fn left_behind(entities: Seq<(Entity, bool)>) -> Seq<Entity>
    decreases entities.len(),
{
    if entities.len() == 0 {
        Seq::empty()
    } else {
        left_behind(entities.drop_last()) + (if entities.last().1 {
            Seq::empty()
        } else {
            seq![entities.last().0]
        })
    }
}

/// The entities to remove when the player goes down a level; each entity
/// comes with whether it is the player's own (the player or carried by it).
pub fn entities_left_behind(entities: &Vec<(Entity, bool)>) -> (r: Vec<Entity>)
    ensures
        r@ == left_behind(entities@),
{
    let mut r: Vec<Entity> = Vec::new();
    let mut i: usize = 0;
    while i < entities.len()
        invariant
            i <= entities.len(),
            r@ == left_behind(entities@.take(i as int)),
        decreases entities.len() - i,
    {
        proof {
            assert(entities@.take(i + 1).drop_last() =~= entities@.take(i as int));
        }
        let (e, own) = entities[i];
        if !own {
            r.push(e);
        }
        proof {
            assert(r@ =~= left_behind(entities@.take(i + 1)));
        }
        i += 1;
    }
    proof {
        assert(entities@.take(entities.len() as int) =~= entities@);
    }
    r
}

} // verus!
