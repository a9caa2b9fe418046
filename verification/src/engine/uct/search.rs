//! The course of a search: simulations until it is told to stop, then the
//! final move.

use vstd::prelude::*;

verus! {

/// What a search does next.
#[derive(Clone, Copy, Debug, PartialEq, Eq, Structural)]
pub enum Step {
    /// Run one more simulation.
    Simulate,
    /// Emit the move of the most played child of the root, with the number
    /// of simulations that were run.
    Finish(usize),
    /// Nothing: the final move was emitted.
    Done,
}

/// A search as a mathematical value: the number of simulations that it may
/// run, the number that it has run, and whether it has emitted its final
/// move.
pub struct SearchView {
    pub limit: nat,
    pub simulations: nat,
    pub finished: bool,
}

/// A search that is under way or over.
pub struct Search {
    limit: usize,
    simulations: usize,
    finished: bool,
}

/// What a search does when it is asked between two simulations, and the
/// search after that. A search that is over does nothing. A search that is
/// told to stop, or has run as many simulations as it may, emits its final
/// move and is over. Any other search runs one more simulation.
pub open spec fn step(s: SearchView, cancelled: bool) -> (SearchView, Step) {
    if s.finished {
        (s, Step::Done)
    } else if cancelled || s.simulations >= s.limit {
        (SearchView { finished: true, ..s }, Step::Finish(s.simulations as usize))
    } else {
        (SearchView { simulations: s.simulations + 1, ..s }, Step::Simulate)
    }
}

/// What a search does over a sequence of times at which it is asked, each
/// with the stop signal up or not.
pub open spec fn steps(s: SearchView, polls: Seq<bool>) -> Seq<Step>
    decreases polls.len(),
{
    if polls.len() == 0 {
        Seq::empty()
    } else {
        seq![step(s, polls[0]).1] + steps(step(s, polls[0]).0, polls.drop_first())
    }
}

impl View for Search {
    type V = SearchView;

    closed spec fn view(&self) -> SearchView {
        SearchView {
            limit: self.limit as nat,
            simulations: self.simulations as nat,
            finished: self.finished,
        }
    }
}

impl Search {
    /// A search that runs at most `limit` simulations.
    pub fn new(limit: usize) -> (s: Search)
        ensures
            s@ == (SearchView { limit: limit as nat, simulations: 0, finished: false }),
    {
        Search { limit, simulations: 0, finished: false }
    }

    /// What the search does next. It is asked between two simulations, with
    /// `cancelled` saying whether the stop signal is up.
    pub fn next(&mut self, cancelled: bool) -> (s: Step)
        ensures
            (final(self)@, s) == step(old(self)@, cancelled),
    {
        if self.finished {
            Step::Done
        } else if cancelled || self.simulations >= self.limit {
            self.finished = true;
            Step::Finish(self.simulations)
        } else {
            self.simulations += 1;
            Step::Simulate
        }
    }
}

/// A search that is over stays over and does nothing.
pub proof fn lemma_done_stays_done(s: SearchView, polls: Seq<bool>)
    requires
        s.finished,
    ensures
        steps(s, polls).len() == polls.len(),
        forall|j: int| 0 <= j < polls.len() ==> #[trigger] steps(s, polls)[j] == Step::Done,
    decreases polls.len(),
{
    if polls.len() > 0 {
        lemma_done_stays_done(s, polls.drop_first());
    }
}

/// A search emits its final move exactly once, and at once: at the first
/// time that it is asked with the stop signal up, or with no simulation
/// left to run. At every time before that it runs one simulation, and at
/// every time after it does nothing. With the move goes the number of
/// simulations that were run.
pub proof fn lemma_one_final_move(s: SearchView, polls: Seq<bool>, i: int)
    requires
        !s.finished,
        s.limit <= usize::MAX,
        0 <= i < polls.len(),
        forall|j: int| 0 <= j < i ==> !polls[j],
        s.simulations + i <= s.limit,
        polls[i] || s.simulations + i == s.limit,
    ensures
        steps(s, polls).len() == polls.len(),
        forall|j: int| 0 <= j < i ==> #[trigger] steps(s, polls)[j] == Step::Simulate,
        steps(s, polls)[i] == Step::Finish((s.simulations + i) as usize),
        forall|j: int| i < j < polls.len() ==> #[trigger] steps(s, polls)[j] == Step::Done,
    decreases polls.len(),
{
    let rest = polls.drop_first();
    let next = step(s, polls[0]).0;
    if i == 0 {
        lemma_done_stays_done(next, rest);
    } else {
        lemma_one_final_move(next, rest, i - 1);
    }
}

} // verus!
