//! Playouts that credit every move played in them.

use vstd::prelude::*;
use crate::board::Move;
use crate::config::Config;
use crate::engine::move_stats::MoveStats;
use crate::playout::{Playout, PlayoutResult};

verus! {

/// How often a move stands in a sequence of moves.
pub open spec fn occurrences(moves: Seq<Move>, m: Move) -> nat
    decreases moves.len(),
{
    if moves.len() == 0 {
        0
    } else {
        occurrences(moves.drop_last(), m) + if moves.last() == m {
            1nat
        } else {
            0nat
        }
    }
}

/// An engine that plays playouts and credits each with all of its moves,
/// as if each had been the first.
pub struct AmafMcEngine {
    config: Config,
    playout: Playout,
}

impl AmafMcEngine {
    pub closed spec fn config(&self) -> Config {
        self.config
    }

    pub closed spec fn playout(&self) -> Playout {
        self.playout
    }

    pub fn new(config: Config) -> (e: AmafMcEngine)
        ensures
            e.config() == config,
            e.playout().config() == config,
    {
        AmafMcEngine { config, playout: Playout::new(config) }
    }

    pub fn engine_type(&self) -> (s: &'static str)
        ensures
            s@ == "amaf"@,
    {
        "amaf"
    }

    /// Counts a playout for every move played in it, as a win or as a loss,
    /// once for each time the move was played. The statistics track every
    /// move of the playout, and the counters have room.
    pub fn record_playout(stats: &mut MoveStats, playout: &PlayoutResult, won: bool)
        requires
            old(stats).wf(),
            forall|i: int|
                0 <= i < playout.spec_moves().len() ==> old(stats).tracks(#[trigger] playout.spec_moves()[i]),
            forall|i: int|
                0 <= i < old(stats).stats().len() ==> (#[trigger] old(stats).stats()[i]).spec_plays()
                    + playout.spec_moves().len() <= usize::MAX,
        ensures
            final(stats).wf(),
            final(stats).spec_color() == old(stats).spec_color(),
            final(stats).moves() == old(stats).moves(),
            forall|m: Move|
                old(stats).tracks(m) ==> {
                    &&& (#[trigger] final(stats).stat(m)).spec_plays() == old(stats).stat(m).spec_plays()
                        + occurrences(playout.spec_moves(), m)
                    &&& final(stats).stat(m).spec_wins() == old(stats).stat(m).spec_wins() + if won {
                        occurrences(playout.spec_moves(), m)
                    } else {
                        0
                    }
                },
    {
        let moves = playout.moves();
        let mut i: usize = 0;
        assert(moves@.take(0) =~= Seq::<Move>::empty());
        while i < moves.len()
            invariant
                i <= moves@.len(),
                moves@ == playout.spec_moves(),
                stats.wf(),
                stats.spec_color() == old(stats).spec_color(),
                stats.moves() == old(stats).moves(),
                old(stats).wf(),
                forall|k: int| 0 <= k < moves@.len() ==> old(stats).tracks(#[trigger] moves@[k]),
                forall|k: int|
                    0 <= k < old(stats).stats().len() ==> (#[trigger] old(stats).stats()[k]).spec_plays()
                        + moves@.len() <= usize::MAX,
                forall|m: Move|
                    old(stats).tracks(m) ==> {
                        &&& (#[trigger] stats.stat(m)).spec_plays() == old(stats).stat(m).spec_plays()
                            + occurrences(moves@.take(i as int), m)
                        &&& stats.stat(m).spec_wins() == old(stats).stat(m).spec_wins() + if won {
                            occurrences(moves@.take(i as int), m)
                        } else {
                            0
                        }
                        &&& occurrences(moves@.take(i as int), m) <= i
                    },
            decreases moves@.len() - i,
        {
            let m: Move = moves[i];
            let ghost held = *stats;
            let ghost seen = moves@.take(i as int);
            let ghost next = moves@.take(i + 1);
            proof {
                assert(next.drop_last() =~= seen);
                assert(next.last() == m);
                assert(old(stats).tracks(m));
                let k = old(stats).moves().index_of(m);
                assert(old(stats).stats()[k].spec_plays() + moves@.len() <= usize::MAX);
                assert(stats.stat(m).spec_plays() == old(stats).stat(m).spec_plays() + occurrences(seen, m));
            }
            if won {
                stats.record_win(&m);
            } else {
                stats.record_loss(&m);
            }
            proof {
                assert forall|x: Move| old(stats).tracks(x) implies {
                    &&& (#[trigger] stats.stat(x)).spec_plays() == old(stats).stat(x).spec_plays()
                        + occurrences(next, x)
                    &&& stats.stat(x).spec_wins() == old(stats).stat(x).spec_wins() + if won {
                        occurrences(next, x)
                    } else {
                        0
                    }
                    &&& occurrences(next, x) <= i + 1
                } by {
                    assert(held.tracks(x));
                    if x != m {
                        assert(stats.stat(x) == held.stat(x));
                    }
                }
            }
            i += 1;
        }
        assert(moves@.take(i as int) =~= moves@);
    }
}

} // verus!
