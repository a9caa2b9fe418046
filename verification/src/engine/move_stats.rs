//! Wins and plays of the moves that a search considers.

use vstd::prelude::*;
use crate::board::{Color, Move};
use crate::ratio::{lemma_exceeds_chain, Ratio};

verus! {

/// How often a move was played, and how often it won.
#[derive(Clone, Copy, Debug)]
pub struct MoveStat {
    wins: usize,
    plays: usize,
}

impl MoveStat {
    pub closed spec fn spec_wins(&self) -> nat {
        self.wins as nat
    }

    pub closed spec fn spec_plays(&self) -> nat {
        self.plays as nat
    }

    /// A move has not won more often than it was played.
    pub open spec fn wf(&self) -> bool {
        self.spec_wins() <= self.spec_plays()
    }

    /// The share of wins among the plays, and 0 where there was no play.
    pub open spec fn ratio(&self) -> Ratio {
        Ratio::of(self.spec_wins(), self.spec_plays())
    }

    pub fn new() -> (s: MoveStat)
        ensures
            s.wf(),
            s.spec_wins() == 0,
            s.spec_plays() == 0,
    {
        MoveStat { wins: 0, plays: 0 }
    }

    /// Counts a play that was won. The counter has room for it.
    pub fn won(&mut self)
        requires
            old(self).wf(),
            old(self).spec_plays() < usize::MAX,
        ensures
            final(self).wf(),
            final(self).spec_wins() == old(self).spec_wins() + 1,
            final(self).spec_plays() == old(self).spec_plays() + 1,
    {
        self.wins = self.wins + 1;
        self.plays = self.plays + 1;
    }

    /// Counts a play that was lost. The counter has room for it.
    pub fn lost(&mut self)
        requires
            old(self).wf(),
            old(self).spec_plays() < usize::MAX,
        ensures
            final(self).wf(),
            final(self).spec_wins() == old(self).spec_wins(),
            final(self).spec_plays() == old(self).spec_plays() + 1,
    {
        self.plays = self.plays + 1;
    }

    pub fn all_wins(&self) -> (b: bool)
        ensures
            b == (self.spec_wins() == self.spec_plays()),
    {
        self.wins == self.plays
    }

    pub fn all_losses(&self) -> (b: bool)
        ensures
            b == (self.spec_wins() == 0),
    {
        self.wins == 0
    }

    pub fn win_ratio(&self) -> (r: Ratio)
        requires
            self.wf(),
        ensures
            r == self.ratio(),
            r.den > 0,
            r.num <= r.den,
            self.spec_plays() == 0 ==> r.num == 0,
    {
        Ratio::new(self.wins, self.plays)
    }
}

/// The share of wins of a move lies between 0 and 1, and is 0 for a move
/// that was never played.
pub proof fn lemma_win_ratio_bounds(s: MoveStat)
    requires
        s.wf(),
    ensures
        s.spec_wins() <= s.spec_plays(),
        s.ratio().den > 0,
        0 <= s.ratio().num <= s.ratio().den,
        s.spec_plays() == 0 ==> s.ratio().num == 0,
{
}

/// The moves of a sequence in the order in which each comes first.
pub open spec fn distinct(moves: Seq<Move>) -> Seq<Move>
    decreases moves.len(),
{
    if moves.len() == 0 {
        Seq::empty()
    } else {
        let before = distinct(moves.drop_last());
        if before.contains(moves.last()) {
            before
        } else {
            before.push(moves.last())
        }
    }
}

/// Whether entry `i` is the first among the entries of the greatest share
/// of wins.
pub open spec fn best_share(stats: Seq<MoveStat>, i: int) -> bool {
    &&& 0 <= i < stats.len()
    &&& forall|j: int| 0 <= j < stats.len() ==> !(#[trigger] stats[j]).ratio().exceeds(stats[i].ratio())
    &&& forall|j: int| 0 <= j < i ==> stats[i].ratio().exceeds((#[trigger] stats[j]).ratio())
}

/// The statistics of a set of moves, kept for the player who is to move.
/// The moves are those given when the statistics were set up, each once;
/// recording changes counters only.
pub struct MoveStats {
    color: Color,
    moves: Vec<Move>,
    stats: Vec<MoveStat>,
}

impl MoveStats {
    pub closed spec fn spec_color(&self) -> Color {
        self.color
    }

    /// The moves that are tracked, in the order in which they are scanned.
    pub closed spec fn moves(&self) -> Seq<Move> {
        self.moves@
    }

    /// The counters, those of each move at the place of the move.
    pub closed spec fn stats(&self) -> Seq<MoveStat> {
        self.stats@
    }

    pub open spec fn wf(&self) -> bool {
        &&& self.moves().len() == self.stats().len()
        &&& self.moves().no_duplicates()
        &&& forall|i: int| 0 <= i < self.stats().len() ==> (#[trigger] self.stats()[i]).wf()
    }

    pub open spec fn tracks(&self, m: Move) -> bool {
        self.moves().contains(m)
    }

    /// The counters of a tracked move.
    pub open spec fn stat(&self, m: Move) -> MoveStat {
        self.stats()[self.moves().index_of(m)]
    }

    /// Statistics for the given moves, each as often played and won as
    /// never. A move given twice is tracked once.
    pub fn new(moves: &Vec<Move>, color: Color) -> (s: MoveStats)
        ensures
            s.wf(),
            s.spec_color() == color,
            s.moves() == distinct(moves@),
            forall|m: Move| s.tracks(m) <==> moves@.contains(m),
            forall|i: int|
                0 <= i < s.stats().len() ==> (#[trigger] s.stats()[i]).spec_plays() == 0
                    && s.stats()[i].spec_wins() == 0,
    {
        let mut kept: Vec<Move> = Vec::new();
        let mut stats: Vec<MoveStat> = Vec::new();
        let mut i: usize = 0;
        assert(moves@.take(0) =~= Seq::<Move>::empty());
        while i < moves.len()
            invariant
                i <= moves@.len(),
                kept@ == distinct(moves@.take(i as int)),
                kept@.len() == stats@.len(),
                kept@.no_duplicates(),
                forall|m: Move| kept@.contains(m) <==> moves@.take(i as int).contains(m),
                forall|k: int|
                    0 <= k < stats@.len() ==> (#[trigger] stats@[k]).spec_plays() == 0
                        && stats@[k].spec_wins() == 0,
            decreases moves@.len() - i,
        {
            let m: Move = moves[i];
            let ghost prefix = moves@.take(i as int);
            let ghost next = moves@.take(i + 1);
            let ghost before = kept@;
            assert(next.drop_last() =~= prefix);
            assert(next.last() == m);
            if position(&kept, &m).is_none() {
                kept.push(m);
                stats.push(MoveStat::new());
            }
            assert forall|x: Move| kept@.contains(x) <==> next.contains(x) by {
                if next.contains(x) {
                    let k = choose|k: int| 0 <= k < next.len() && next[k] == x;
                    if k < i {
                        assert(prefix[k] == x);
                        assert(before.contains(x));
                        let j = choose|j: int| 0 <= j < before.len() && before[j] == x;
                        assert(kept@[j] == x);
                    } else {
                        assert(x == m);
                        if before.contains(m) {
                            let j = choose|j: int| 0 <= j < before.len() && before[j] == m;
                            assert(kept@[j] == m);
                        } else {
                            assert(kept@[kept@.len() - 1] == m);
                        }
                    }
                }
                if kept@.contains(x) {
                    let j = choose|j: int| 0 <= j < kept@.len() && kept@[j] == x;
                    if j < before.len() {
                        assert(before[j] == x);
                        assert(before.contains(x));
                        assert(prefix.contains(x));
                        let k = choose|k: int| 0 <= k < prefix.len() && prefix[k] == x;
                        assert(next[k] == x);
                    } else {
                        assert(next[i as int] == x);
                    }
                }
            }
            i += 1;
        }
        assert(moves@.take(i as int) =~= moves@);
        MoveStats { color, moves: kept, stats }
    }

    /// Whether `m` is one of the tracked moves.
    pub fn contains(&self, m: &Move) -> (b: bool)
        ensures
            b == self.tracks(*m),
    {
        position(&self.moves, m).is_some()
    }

    /// Counts a play of `m` that was won. The move is one of the tracked
    /// moves, and its counter has room.
    pub fn record_win(&mut self, m: &Move)
        requires
            old(self).wf(),
            old(self).tracks(*m),
            old(self).stat(*m).spec_plays() < usize::MAX,
        ensures
            final(self).wf(),
            final(self).spec_color() == old(self).spec_color(),
            final(self).moves() == old(self).moves(),
            final(self).stat(*m).spec_wins() == old(self).stat(*m).spec_wins() + 1,
            final(self).stat(*m).spec_plays() == old(self).stat(*m).spec_plays() + 1,
            forall|other: Move|
                old(self).tracks(other) && other != *m ==> final(self).stat(other) == old(self).stat(other),
    {
        let i: usize = position(&self.moves, m).unwrap();
        proof {
            lemma_index_of_unique(old(self).moves(), *m, i as int);
        }
        let mut stat: MoveStat = self.stats[i];
        stat.won();
        self.stats.set(i, stat);
        proof {
            assert forall|other: Move| old(self).tracks(other) && other != *m implies final(self).stat(other)
                == old(self).stat(other) by {
                let j = old(self).moves().index_of(other);
                assert(j != i);
            }
        }
    }

    /// Counts a play of `m` that was lost. The move is one of the tracked
    /// moves, and its counter has room.
    pub fn record_loss(&mut self, m: &Move)
        requires
            old(self).wf(),
            old(self).tracks(*m),
            old(self).stat(*m).spec_plays() < usize::MAX,
        ensures
            final(self).wf(),
            final(self).spec_color() == old(self).spec_color(),
            final(self).moves() == old(self).moves(),
            final(self).stat(*m).spec_wins() == old(self).stat(*m).spec_wins(),
            final(self).stat(*m).spec_plays() == old(self).stat(*m).spec_plays() + 1,
            forall|other: Move|
                old(self).tracks(other) && other != *m ==> final(self).stat(other) == old(self).stat(other),
    {
        let i: usize = position(&self.moves, m).unwrap();
        proof {
            lemma_index_of_unique(old(self).moves(), *m, i as int);
        }
        let mut stat: MoveStat = self.stats[i];
        stat.lost();
        self.stats.set(i, stat);
        proof {
            assert forall|other: Move| old(self).tracks(other) && other != *m implies final(self).stat(other)
                == old(self).stat(other) by {
                let j = old(self).moves().index_of(other);
                assert(j != i);
            }
        }
    }

    /// Whether no tracked move has ever won.
    pub fn all_losses(&self) -> (b: bool)
        requires
            self.wf(),
        ensures
            b == forall|i: int| 0 <= i < self.stats().len() ==> (#[trigger] self.stats()[i]).spec_wins() == 0,
    {
        let mut i: usize = 0;
        while i < self.stats.len()
            invariant
                i <= self.stats@.len(),
                forall|k: int| 0 <= k < i ==> (#[trigger] self.stats@[k]).spec_wins() == 0,
            decreases self.stats@.len() - i,
        {
            if !self.stats[i].all_losses() {
                assert(self.stats()[i as int].spec_wins() != 0);
                return false;
            }
            i += 1;
        }
        true
    }

    /// Whether every tracked move has won each time it was played.
    pub fn all_wins(&self) -> (b: bool)
        requires
            self.wf(),
        ensures
            b == forall|i: int|
                0 <= i < self.stats().len() ==> (#[trigger] self.stats()[i]).spec_wins()
                    == self.stats()[i].spec_plays(),
    {
        let mut i: usize = 0;
        while i < self.stats.len()
            invariant
                i <= self.stats@.len(),
                forall|k: int|
                    0 <= k < i ==> (#[trigger] self.stats@[k]).spec_wins() == self.stats@[k].spec_plays(),
            decreases self.stats@.len() - i,
        {
            if !self.stats[i].all_wins() {
                assert(self.stats()[i as int].spec_wins() != self.stats()[i as int].spec_plays());
                return false;
            }
            i += 1;
        }
        true
    }

    /// The tracked move with the greatest share of wins, the first of them
    /// where several have it; the pass of the player to move where no move
    /// is tracked.
    pub fn best(&self) -> (m: Move)
        requires
            self.wf(),
        ensures
            self.moves().len() == 0 ==> m == Move::Pass(self.spec_color()),
            self.moves().len() > 0 ==> exists|i: int| best_share(self.stats(), i) && m == self.moves()[i],
    {
        if self.moves.len() == 0 {
            return Move::Pass(self.color);
        }
        let mut best: usize = 0;
        let mut i: usize = 1;
        while i < self.stats.len()
            invariant
                self.wf(),
                1 <= i <= self.stats@.len(),
                best < i,
                best_share(self.stats@.take(i as int), best as int),
            decreases self.stats@.len() - i,
        {
            let ghost seen = self.stats@.take(i as int);
            let ghost next = self.stats@.take(i + 1);
            let candidate = self.stats[i].win_ratio();
            let leader = self.stats[best].win_ratio();
            if candidate.gt(&leader) {
                proof {
                    assert forall|j: int| 0 <= j < next.len() implies !(#[trigger] next[j]).ratio().exceeds(
                        next[i as int].ratio(),
                    ) by {
                        if j < i {
                            lemma_exceeds_chain(seen[j].ratio(), leader, candidate);
                        }
                    }
                    assert forall|j: int| 0 <= j < i implies next[i as int].ratio().exceeds(
                        (#[trigger] next[j]).ratio(),
                    ) by {
                        lemma_exceeds_chain(seen[j].ratio(), leader, candidate);
                    }
                }
                best = i;
            }
            i += 1;
        }
        assert(self.stats@.take(i as int) =~= self.stats@);
        self.moves[best]
    }
}

/// The place of a move in a vector, where it is there.
fn position(moves: &Vec<Move>, m: &Move) -> (r: Option<usize>)
    ensures
        r is None <==> !moves@.contains(*m),
        r matches Some(i) ==> i < moves@.len() && moves@[i as int] == *m,
{
    let mut i: usize = 0;
    while i < moves.len()
        invariant
            i <= moves@.len(),
            forall|k: int| 0 <= k < i ==> moves@[k] != *m,
        decreases moves@.len() - i,
    {
        if moves[i] == *m {
            return Some(i);
        }
        i += 1;
    }
    None
}

proof fn lemma_index_of_unique(moves: Seq<Move>, m: Move, i: int)
    requires
        moves.no_duplicates(),
        0 <= i < moves.len(),
        moves[i] == m,
    ensures
        moves.index_of(m) == i,
{
    let j = moves.index_of(m);
    assert(moves.contains(m));
    assert(0 <= j < moves.len() && moves[j] == m);
}

} // verus!
