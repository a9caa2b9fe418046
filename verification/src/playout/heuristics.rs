//! The points at which the pattern policy looks.

use vstd::prelude::*;
use rand::XorShiftRng;
use crate::board::{Coord, Move};
use crate::playout::Playout;
use crate::rng::shuffle;

verus! {

/// The points of the board around a move: those next to its point along
/// the row, the column and the diagonals. A pass has none.
pub open spec fn surroundings(m: Move, size: u8) -> Seq<Coord> {
    match m {
        Move::Play(_, c) => c.adjacent(size) + c.diagonal(size),
        Move::Pass(_) => Seq::empty(),
    }
}

/// The last `count` moves of a game, or all where there are fewer, the
/// latest first.
pub open spec fn latest(played: Seq<Move>, count: usize) -> Seq<Move> {
    let n = if played.len() > count {
        count as nat
    } else {
        played.len()
    };
    Seq::new(n, |j: int| played[played.len() - 1 - j])
}

/// The points around move `j`.
pub open spec fn around(moves: Seq<Move>, size: u8, j: int) -> Seq<Coord> {
    surroundings(moves[j], size)
}

/// Whether `c` is a point around one of the first `n` moves.
pub open spec fn covered(moves: Seq<Move>, size: u8, n: int, c: Coord) -> bool {
    exists|j: int| 0 <= j < n && (#[trigger] around(moves, size, j)).contains(c)
}

/// Whether `coords` gathers the points around the first `n` moves: each of
/// those points once and no others, and a point around an earlier move
/// before every point that is around later moves only.
pub open spec fn gathers_first(coords: Seq<Coord>, moves: Seq<Move>, size: u8, n: int) -> bool {
    &&& coords.no_duplicates()
    &&& forall|c: Coord| #[trigger] coords.contains(c) <==> covered(moves, size, n, c)
    &&& forall|a: int, b: int, j: int|
        0 <= a < b < coords.len() && 0 <= j < n && (#[trigger] around(moves, size, j)).contains(
            #[trigger] coords[b],
        ) ==> covered(moves, size, j + 1, #[trigger] coords[a])
}

/// Whether `coords` gathers the points around all of `moves`.
pub open spec fn gathers(coords: Seq<Coord>, moves: Seq<Move>, size: u8) -> bool {
    gathers_first(coords, moves, size, moves.len() as int)
}

fn holds(coords: &Vec<Coord>, c: &Coord) -> (b: bool)
    ensures
        b == coords@.contains(*c),
{
    let mut i: usize = 0;
    while i < coords.len()
        invariant
            i <= coords@.len(),
            forall|k: int| 0 <= k < i ==> coords@[k] != *c,
        decreases coords@.len() - i,
    {
        if coords[i] == *c {
            return true;
        }
        i += 1;
    }
    false
}

/// Appends to `coords` the points of `candidates` that it does not hold.
fn gather(coords: &mut Vec<Coord>, candidates: &Vec<Coord>)
    requires
        old(coords)@.no_duplicates(),
    ensures
        final(coords)@.no_duplicates(),
        final(coords)@.len() >= old(coords)@.len(),
        final(coords)@.take(old(coords)@.len() as int) == old(coords)@,
        forall|c: Coord|
            #[trigger] final(coords)@.contains(c) <==> old(coords)@.contains(c) || candidates@.contains(c),
        forall|b: int|
            old(coords)@.len() <= b < final(coords)@.len() ==> !old(coords)@.contains(
                #[trigger] final(coords)@[b],
            ),
{
    let ghost before = coords@;
    let mut n: usize = 0;
    assert(coords@.take(before.len() as int) =~= before);
    while n < candidates.len()
        invariant
            n <= candidates@.len(),
            coords@.no_duplicates(),
            coords@.len() >= before.len(),
            coords@.take(before.len() as int) == before,
            forall|c: Coord|
                #[trigger] coords@.contains(c) <==> before.contains(c) || candidates@.take(n as int).contains(c),
            forall|b: int| before.len() <= b < coords@.len() ==> !before.contains(#[trigger] coords@[b]),
        decreases candidates@.len() - n,
    {
        let c: Coord = candidates[n];
        let ghost seen = candidates@.take(n as int);
        let ghost next = candidates@.take(n + 1);
        let ghost held = coords@;
        assert(next =~= seen.push(c));
        if !holds(coords, &c) {
            coords.push(c);
            assert(coords@.take(before.len() as int) =~= before);
            assert forall|b: int| before.len() <= b < coords@.len() implies !before.contains(
                #[trigger] coords@[b],
            ) by {
                if b < held.len() {
                    assert(coords@[b] == held[b]);
                }
            }
        }
        assert forall|x: Coord| #[trigger] coords@.contains(x) <==> before.contains(x) || next.contains(x) by {
            if coords@.contains(x) {
                let k = choose|k: int| 0 <= k < coords@.len() && coords@[k] == x;
                if k < held.len() {
                    assert(held[k] == x);
                    assert(held.contains(x));
                    if seen.contains(x) {
                        let j = choose|j: int| 0 <= j < seen.len() && seen[j] == x;
                        assert(next[j] == x);
                    }
                } else {
                    assert(next[n as int] == x);
                }
            }
            if before.contains(x) {
                assert(held.contains(x));
                let k = choose|k: int| 0 <= k < held.len() && held[k] == x;
                assert(coords@[k] == x);
            }
            if next.contains(x) {
                let j = choose|j: int| 0 <= j < next.len() && next[j] == x;
                if j < n {
                    assert(seen[j] == x);
                    assert(seen.contains(x));
                    assert(held.contains(x));
                    let k = choose|k: int| 0 <= k < held.len() && held[k] == x;
                    assert(coords@[k] == x);
                } else {
                    assert(x == c);
                    if held.contains(c) {
                        let k = choose|k: int| 0 <= k < held.len() && held[k] == c;
                        assert(coords@[k] == c);
                    } else {
                        assert(coords@[coords@.len() - 1] == c);
                    }
                }
            }
        }
        n += 1;
    }
    assert(candidates@.take(n as int) =~= candidates@);
}

/// One more move is gathered: the points around it that are new follow
/// those gathered before.
proof fn lemma_gathers_next(
    before: Seq<Coord>,
    after: Seq<Coord>,
    candidates: Seq<Coord>,
    moves: Seq<Move>,
    size: u8,
    n: int,
)
    requires
        0 <= n < moves.len(),
        gathers_first(before, moves, size, n),
        after.no_duplicates(),
        after.len() >= before.len(),
        after.take(before.len() as int) == before,
        forall|c: Coord| #[trigger] after.contains(c) <==> before.contains(c) || candidates.contains(c),
        forall|b: int| before.len() <= b < after.len() ==> !before.contains(#[trigger] after[b]),
        forall|c: Coord| #[trigger] candidates.contains(c) <==> around(moves, size, n).contains(c),
    ensures
        gathers_first(after, moves, size, n + 1),
{
    assert forall|c: Coord| #[trigger] after.contains(c) <==> covered(moves, size, n + 1, c) by {
        if after.contains(c) {
            if before.contains(c) {
                let j = choose|j: int| 0 <= j < n && (#[trigger] around(moves, size, j)).contains(c);
                assert(around(moves, size, j).contains(c));
            } else {
                assert(candidates.contains(c));
                assert(around(moves, size, n).contains(c));
            }
        }
        if covered(moves, size, n + 1, c) {
            let j = choose|j: int| 0 <= j < n + 1 && (#[trigger] around(moves, size, j)).contains(c);
            if j < n {
                assert(covered(moves, size, n, c));
                assert(before.contains(c));
            } else {
                assert(candidates.contains(c));
            }
        }
    }
    assert forall|a: int, b: int, j: int|
        0 <= a < b < after.len() && 0 <= j < n + 1 && (#[trigger] around(moves, size, j)).contains(
            #[trigger] after[b],
        ) implies covered(moves, size, j + 1, #[trigger] after[a]) by {
        if b < before.len() {
            assert(after[b] == before[b]);
            assert(after[a] == before[a]);
            if j < n {
                assert(covered(moves, size, j + 1, before[a]));
            } else {
                assert(before.contains(before[a]));
                assert(covered(moves, size, n, before[a]));
                let i = choose|i: int| 0 <= i < n && (#[trigger] around(moves, size, i)).contains(before[a]);
                assert(around(moves, size, i).contains(after[a]));
            }
        } else {
            assert(!before.contains(after[b]));
            if j < n {
                assert(covered(moves, size, n, after[b]));
                assert(before.contains(after[b]));
            }
            assert(j == n);
            assert(after.contains(after[a]));
            assert(covered(moves, size, n + 1, after[a]));
        }
    }
}

/// A move with no points around it changes nothing of what is gathered.
proof fn lemma_gathers_skip(coords: Seq<Coord>, moves: Seq<Move>, size: u8, n: int)
    requires
        0 <= n < moves.len(),
        gathers_first(coords, moves, size, n),
        around(moves, size, n).len() == 0,
    ensures
        gathers_first(coords, moves, size, n + 1),
{
    assert(coords.take(coords.len() as int) =~= coords);
    lemma_gathers_next(coords, coords, Seq::<Coord>::empty(), moves, size, n);
}

impl Playout {
    /// The points at which the pattern policy looks, given the moves
    /// played so far: the points around the last moves, as many of them as
    /// the options say. The neighbours of the latest move come first as we
    /// select a matching move from the start of the vector and these should
    /// take precedence. Chance orders the points around one move.
    pub fn heuristic_set(&self, played_moves: &Vec<Move>, size: u8, rng: &mut XorShiftRng) -> (coords: Vec<
        Coord,
    >)
        ensures
            gathers(
                coords@,
                latest(played_moves@, self.config().playout.last_moves_for_heuristics),
                size,
            ),
    {
        let moves_to_consider: usize = self.config.playout.last_moves_for_heuristics;
        let len: usize = played_moves.len();
        let idx: usize = if len > moves_to_consider {
            len - moves_to_consider
        } else {
            0
        };
        let ghost moves = latest(played_moves@, moves_to_consider);
        let mut coords: Vec<Coord> = Vec::new();
        let mut i: usize = len;
        while i > idx
            invariant
                idx <= i <= len,
                len == played_moves@.len(),
                moves == latest(played_moves@, moves_to_consider),
                moves.len() == len - idx,
                gathers_first(coords@, moves, size, len - i),
            decreases i,
        {
            i -= 1;
            let m: Move = played_moves[i];
            let ghost n: int = len - 1 - i;
            let ghost before = coords@;
            if !m.is_pass() {
                let c: Coord = m.coord();
                let mut candidates: Vec<Coord> = c.neighbours(size);
                let mut diagonals: Vec<Coord> = c.diagonals(size);
                candidates.append(&mut diagonals);
                let ghost ordered = candidates@;
                shuffle(rng, &mut candidates);
                proof {
                    ordered.to_multiset_ensures();
                    candidates@.to_multiset_ensures();
                    assert forall|x: Coord| #[trigger] candidates@.contains(x) <==> ordered.contains(x) by {
                        assert(candidates@.to_multiset().count(x) == ordered.to_multiset().count(x));
                    }
                }
                gather(&mut coords, &candidates);
                proof {
                    lemma_gathers_next(before, coords@, candidates@, moves, size, n);
                }
            } else {
                proof {
                    lemma_gathers_skip(before, moves, size, n);
                }
            }
        }
        coords
    }
}

} // verus!
