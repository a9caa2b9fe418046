//! The nodes of the search tree.

use vstd::prelude::*;
use crate::board::{Color, Move};
use crate::ratio::Ratio;

verus! {

/// A node of the search tree. It owns its children, and holds the game
/// that the move leading to it results in, that move (the root has none),
/// and how often the search went through it and won.
pub struct Node<G> {
    children: Vec<Node<G>>,
    game: G,
    m: Option<Move>,
    plays: usize,
    wins: usize,
}

/// Whether child `i` is the one that the search visits next: the first
/// child that was never visited, or, where all were visited, the first
/// among the children of the greatest value.
pub open spec fn uct_choice<G>(children: Seq<Node<G>>, values: Seq<u64>, i: int) -> bool {
    &&& 0 <= i < children.len()
    &&& forall|j: int| 0 <= j < i ==> (#[trigger] children[j]).spec_plays() != 0
    &&& children[i].spec_plays() != 0 ==> {
        &&& forall|j: int| 0 <= j < children.len() ==> (#[trigger] children[j]).spec_plays() != 0
        &&& forall|j: int| 0 <= j < children.len() ==> #[trigger] values[j] <= values[i]
        &&& forall|j: int| 0 <= j < i ==> #[trigger] values[j] < values[i]
    }
}

/// Whether child `i` is the first among the children played most often.
pub open spec fn most_played<G>(children: Seq<Node<G>>, i: int) -> bool {
    &&& 0 <= i < children.len()
    &&& forall|j: int|
        0 <= j < children.len() ==> (#[trigger] children[j]).spec_plays() <= children[i].spec_plays()
    &&& forall|j: int| 0 <= j < i ==> (#[trigger] children[j]).spec_plays() < children[i].spec_plays()
}

impl<G> Node<G> {
    pub closed spec fn spec_children(&self) -> Seq<Node<G>> {
        self.children@
    }

    pub closed spec fn spec_game(&self) -> G {
        self.game
    }

    pub closed spec fn spec_m(&self) -> Option<Move> {
        self.m
    }

    pub closed spec fn spec_plays(&self) -> nat {
        self.plays as nat
    }

    pub closed spec fn spec_wins(&self) -> nat {
        self.wins as nat
    }

    /// No node of the tree has won more often than it was played, and
    /// every node but the root has the move that leads to it.
    pub closed spec fn wf(&self) -> bool
        decreases self,
    {
        &&& self.wins <= self.plays
        &&& forall|i: int|
            0 <= i < self.children@.len() ==> (#[trigger] self.children@[i]).wf() && self.children@[i].m is Some
    }

    /// A node that was never visited and has no children.
    pub open spec fn fresh(&self, game: G, m: Option<Move>) -> bool {
        &&& self.spec_children().len() == 0
        &&& self.spec_game() == game
        &&& self.spec_m() == m
        &&& self.spec_plays() == 0
        &&& self.spec_wins() == 0
    }

    /// The node itself apart from its children: game, move and counters.
    pub open spec fn same_head(&self, other: &Node<G>) -> bool {
        &&& self.spec_game() == other.spec_game()
        &&& self.spec_m() == other.spec_m()
        &&& self.spec_plays() == other.spec_plays()
        &&& self.spec_wins() == other.spec_wins()
    }

    pub open spec fn spec_is_leaf(&self) -> bool {
        self.spec_children().len() == 0
    }

    /// Whether the search stops its descent at this node: at a leaf, and at
    /// a node visited less often than children are made for.
    pub open spec fn stops(&self, expand_after: usize) -> bool {
        self.spec_is_leaf() || self.spec_plays() < expand_after
    }

    /// Whether `path[k..]` leads from this node down the tree, each entry
    /// the index of a child, and every node on the way can count one more
    /// play.
    pub open spec fn can_credit(&self, path: Seq<usize>, k: int) -> bool
        decreases path.len() - k,
    {
        &&& self.spec_plays() < usize::MAX
        &&& 0 <= k < path.len() ==> {
            &&& path[k] < self.spec_children().len()
            &&& self.spec_children()[path[k] as int].can_credit(path, k + 1)
        }
    }

    /// Whether `after` is what one simulation makes of the tree `self`. The
    /// simulation went from this node along `path[k..]` and was won by
    /// `winner`. Every node on the way counts one more play. It counts one
    /// more win too if the player to move at it is the opponent of the
    /// winner, so that the move leading to it was the winner's. The players
    /// take turns down the path; `to_move` is to move at this node.
    /// Everything off the path stays as it is.
    pub open spec fn credited(
        &self,
        after: &Node<G>,
        path: Seq<usize>,
        k: int,
        to_move: Color,
        winner: Color,
    ) -> bool
        decreases path.len() - k,
    {
        &&& after.spec_plays() == self.spec_plays() + 1
        &&& after.spec_wins() == self.spec_wins() + if to_move == winner.other() {
            1nat
        } else {
            0nat
        }
        &&& after.spec_game() == self.spec_game()
        &&& after.spec_m() == self.spec_m()
        &&& after.spec_children().len() == self.spec_children().len()
        &&& if 0 <= k < path.len() {
            &&& path[k] < self.spec_children().len()
            &&& forall|j: int|
                0 <= j < self.spec_children().len() && j != path[k] ==> #[trigger] after.spec_children()[j]
                    == self.spec_children()[j]
            &&& self.spec_children()[path[k] as int].credited(
                &after.spec_children()[path[k] as int],
                path,
                k + 1,
                to_move.other(),
                winner,
            )
        } else {
            after.spec_children() == self.spec_children()
        }
    }

    /// Whether the descent of the search from this node goes along `path`
    /// and stops at its end. At each node it takes the child that
    /// `uct_choice` names for values that `value` gave for the children,
    /// each from the child's wins and plays and the plays of the node.
    pub open spec fn selects<F: Fn(usize, usize, usize) -> u64>(
        &self,
        expand_after: usize,
        value: &F,
        path: Seq<usize>,
    ) -> bool
        decreases path.len(),
    {
        if path.len() == 0 {
            self.stops(expand_after)
        } else {
            &&& !self.stops(expand_after)
            &&& exists|values: Seq<u64>|
                {
                    &&& self.valued(value, values)
                    &&& uct_choice(self.spec_children(), values, path[0] as int)
                }
            &&& path[0] < self.spec_children().len()
            &&& self.spec_children()[path[0] as int].selects(expand_after, value, path.skip(1))
        }
    }

    /// Whether `values` holds, for each child in turn, a value that `value`
    /// gave for it.
    pub open spec fn valued<F: Fn(usize, usize, usize) -> u64>(
        &self,
        value: &F,
        values: Seq<u64>,
    ) -> bool {
        &&& values.len() == self.spec_children().len()
        &&& forall|j: int|
            0 <= j < values.len() ==> call_ensures(
                *value,
                (
                    self.spec_children()[j].spec_wins() as usize,
                    self.spec_children()[j].spec_plays() as usize,
                    self.spec_plays() as usize,
                ),
                #[trigger] values[j],
            )
    }

    pub fn new(game: G, m: Move) -> (n: Node<G>)
        ensures
            n.wf(),
            n.fresh(game, Some(m)),
    {
        Node { children: Vec::new(), game, m: Some(m), plays: 0, wins: 0 }
    }

    /// The root of a tree for `game`, with its children. See `expand` for
    /// the arguments.
    pub fn root(game: G, to_move: Color, after_pass: G, successors: Vec<(Move, G)>) -> (n: Node<G>)
        ensures
            n.wf(),
            n.spec_game() == game,
            n.spec_m() is None,
            n.spec_plays() == 0,
            n.spec_wins() == 0,
            n.spec_children().len() == 1 + successors@.len(),
            n.spec_children()[0].fresh(after_pass, Some(Move::Pass(to_move))),
            forall|i: int|
                0 <= i < successors@.len() ==> (#[trigger] n.spec_children()[i + 1]).fresh(
                    successors@[i].1,
                    Some(successors@[i].0),
                ),
    {
        let mut root = Node { children: Vec::new(), game, m: None, plays: 0, wins: 0 };
        root.expand(to_move, after_pass, successors);
        root
    }

    /// Gives a leaf its children: first the pass of the player to move,
    /// which leads to `after_pass`, then one child for each of
    /// `successors`, a move of that player and the game it leads to, in
    /// their order. A node that has children keeps them: nothing changes.
    pub fn expand(&mut self, to_move: Color, after_pass: G, successors: Vec<(Move, G)>)
        requires
            old(self).wf(),
        ensures
            final(self).wf(),
            final(self).same_head(old(self)),
            !old(self).spec_is_leaf() ==> *final(self) == *old(self),
            old(self).spec_is_leaf() ==> {
                &&& final(self).spec_children().len() == 1 + successors@.len()
                &&& final(self).spec_children()[0].fresh(after_pass, Some(Move::Pass(to_move)))
                &&& forall|i: int|
                    0 <= i < successors@.len() ==> (#[trigger] final(self).spec_children()[i + 1]).fresh(
                        successors@[i].1,
                        Some(successors@[i].0),
                    )
            },
    {
        if self.children.len() != 0 {
            return;
        }
        let ghost all = successors@;
        let mut rest = successors;
        let mut later: Vec<Node<G>> = Vec::new();
        while rest.len() > 0
            invariant
                rest@.len() + later@.len() == all.len(),
                rest@ == all.take(rest@.len() as int),
                forall|i: int|
                    0 <= i < later@.len() ==> {
                        &&& (#[trigger] later@[i]).wf()
                        &&& later@[i].fresh(all[all.len() - 1 - i].1, Some(all[all.len() - 1 - i].0))
                    },
            decreases rest@.len(),
        {
            let (m, game) = rest.pop().unwrap();
            later.push(Node::new(game, m));
        }
        let mut children: Vec<Node<G>> = Vec::new();
        children.push(Node::new(after_pass, Move::Pass(to_move)));
        while later.len() > 0
            invariant
                children@.len() + later@.len() == 1 + all.len(),
                children@.len() >= 1,
                children@[0].wf(),
                children@[0].fresh(after_pass, Some(Move::Pass(to_move))),
                forall|i: int|
                    0 <= i < later@.len() ==> {
                        &&& (#[trigger] later@[i]).wf()
                        &&& later@[i].fresh(all[all.len() - 1 - i].1, Some(all[all.len() - 1 - i].0))
                    },
                forall|i: int|
                    0 <= i < children@.len() - 1 ==> {
                        &&& (#[trigger] children@[i + 1]).wf()
                        &&& children@[i + 1].fresh(all[i].1, Some(all[i].0))
                    },
            decreases later@.len(),
        {
            let node = later.pop().unwrap();
            children.push(node);
        }
        self.children = children;
        assert(final(self).wf()) by {
            assert forall|i: int| 0 <= i < self.children@.len() implies (#[trigger] self.children@[i]).wf()
                && self.children@[i].m is Some by {
                if i > 0 {
                    assert(children@[(i - 1) + 1].wf());
                }
            }
        }
    }

    /// Returns the index of the child that a search without any guidance
    /// tries next: the first one.
    pub fn next_child_to_try_index(&self) -> (i: usize)
        ensures
            i == 0,
    {
        0
    }

    #[verifier::when_used_as_spec(spec_is_leaf)]
    pub fn is_leaf(&self) -> (b: bool)
        ensures
            b == self.spec_is_leaf(),
    {
        self.children.len() == 0
    }

    /// The number of children.
    pub fn child_count(&self) -> (n: usize)
        ensures
            n == self.spec_children().len(),
    {
        self.children.len()
    }

    /// The child that was played most often, the first of them where
    /// several were. A leaf has none.
    pub fn best(&self) -> (n: &Node<G>)
        requires
            !self.spec_is_leaf(),
        ensures
            exists|i: int| most_played(self.spec_children(), i) && *n == self.spec_children()[i],
    {
        let mut best: usize = 0;
        let mut i: usize = 1;
        while i < self.children.len()
            invariant
                1 <= i <= self.children@.len(),
                best < i,
                most_played(self.children@.take(i as int), best as int),
            decreases self.children@.len() - i,
        {
            if self.children[i].plays > self.children[best].plays {
                best = i;
            }
            i += 1;
        }
        assert(self.children@.take(i as int) =~= self.children@);
        &self.children[best]
    }

    /// The move of the child that was played most often, the first of
    /// them where several were: the move that the search settles on.
    pub fn best_move(&self) -> (m: Move)
        requires
            self.wf(),
            !self.spec_is_leaf(),
        ensures
            exists|i: int| most_played(self.spec_children(), i) && Some(m) == self.spec_children()[i].spec_m(),
    {
        self.best().m.unwrap()
    }

    /// The child at an index, to work on. The tree stays well-formed if
    /// the child does and keeps a move.
    pub fn child(&mut self, index: usize) -> (c: &mut Node<G>)
        requires
            index < old(self).spec_children().len(),
        ensures
            *c == old(self).spec_children()[index as int],
            old(self).wf() ==> c.wf() && c.spec_m() is Some,
            final(self).spec_children() == old(self).spec_children().update(index as int, *final(c)),
            final(self).same_head(old(self)),
            old(self).wf() && final(c).wf() && final(c).spec_m() is Some ==> final(self).wf(),
    {
        &mut self.children[index]
    }

    /// Whether the search gives this node children now: it has none, its
    /// game is not over, and it was visited as often as is asked for.
    pub fn should_expand(&self, expand_after: usize, game_over: bool) -> (b: bool)
        ensures
            b == (self.spec_is_leaf() && !game_over && self.spec_plays() >= expand_after),
    {
        self.children.len() == 0 && !game_over && self.plays >= expand_after
    }

    /// Counts a win. The play it belongs to is counted first.
    pub fn record_win(&mut self)
        requires
            old(self).wf(),
            old(self).spec_wins() < old(self).spec_plays(),
        ensures
            final(self).wf(),
            final(self).spec_wins() == old(self).spec_wins() + 1,
            final(self).spec_plays() == old(self).spec_plays(),
            final(self).spec_children() == old(self).spec_children(),
            final(self).spec_game() == old(self).spec_game(),
            final(self).spec_m() == old(self).spec_m(),
    {
        self.wins += 1;
    }

    /// Counts a play. The counter has room for it.
    pub fn record_play(&mut self)
        requires
            old(self).wf(),
            old(self).spec_plays() < usize::MAX,
        ensures
            final(self).wf(),
            final(self).spec_plays() == old(self).spec_plays() + 1,
            final(self).spec_wins() == old(self).spec_wins(),
            final(self).spec_children() == old(self).spec_children(),
            final(self).spec_game() == old(self).spec_game(),
            final(self).spec_m() == old(self).spec_m(),
    {
        self.plays += 1;
    }

    /// How often the search went through this node.
    pub fn plays(&self) -> (n: usize)
        ensures
            n == self.spec_plays(),
    {
        self.plays
    }

    /// How often the search went through this node and was won by the
    /// player whose move leads to it.
    pub fn wins(&self) -> (n: usize)
        ensures
            n == self.spec_wins(),
    {
        self.wins
    }

    /// The share of wins among the plays, and 0 where there was no play.
    pub fn win_ratio(&self) -> (r: Ratio)
        requires
            self.wf(),
        ensures
            r == Ratio::of(self.spec_wins(), self.spec_plays()),
            r.num <= r.den,
            r.den > 0,
    {
        Ratio::new(self.wins, self.plays)
    }

    /// The game after the move that leads to this node.
    pub fn game(&self) -> (g: &G)
        ensures
            *g == self.spec_game(),
    {
        &self.game
    }

    /// The move that leads to this node. The root has none.
    pub fn m(&self) -> (m: Option<Move>)
        ensures
            m == self.spec_m(),
    {
        self.m
    }

    /// The index of the child that the search visits next, given a value
    /// for each child: a child that was never visited goes before all that
    /// were, and among visited children the greatest value decides. Where
    /// several qualify the first is taken. Without children the index is 0.
    pub fn next_uct_child_index(&self, values: &Vec<u64>) -> (index: usize)
        requires
            values@.len() == self.spec_children().len(),
        ensures
            self.spec_is_leaf() ==> index == 0,
            !self.spec_is_leaf() ==> uct_choice(self.spec_children(), values@, index as int),
    {
        let n: usize = self.children.len();
        if n == 0 {
            return 0;
        }
        let mut index: usize = 0;
        let mut i: usize = 0;
        while i < n
            invariant
                i <= n,
                n == self.children@.len(),
                n == values@.len(),
                i == 0 ==> index == 0,
                i > 0 ==> index < i,
                forall|j: int| 0 <= j < i ==> (#[trigger] self.children@[j]).spec_plays() != 0,
                forall|j: int| 0 <= j < i ==> #[trigger] values@[j] <= values@[index as int],
                forall|j: int| 0 <= j < index ==> #[trigger] values@[j] < values@[index as int],
            decreases n - i,
        {
            if self.children[i].plays == 0 {
                return i;
            }
            if values[i] > values[index] {
                index = i;
            }
            i += 1;
        }
        index
    }

    /// The values that `value` gives for the children, each from the
    /// child's wins and plays and the plays of this node.
    pub fn uct_values<F: Fn(usize, usize, usize) -> u64>(&self, value: &F) -> (values: Vec<u64>)
        requires
            forall|w: usize, p: usize, n: usize| call_requires(*value, (w, p, n)),
        ensures
            self.valued(value, values@),
    {
        let mut values: Vec<u64> = Vec::new();
        let mut i: usize = 0;
        while i < self.children.len()
            invariant
                i <= self.children@.len(),
                values@.len() == i,
                forall|w: usize, p: usize, n: usize| call_requires(*value, (w, p, n)),
                forall|j: int|
                    0 <= j < i ==> call_ensures(
                        *value,
                        (
                            self.children@[j].spec_wins() as usize,
                            self.children@[j].spec_plays() as usize,
                            self.plays,
                        ),
                        #[trigger] values@[j],
                    ),
            decreases self.children@.len() - i,
        {
            let v: u64 = value(self.children[i].wins, self.children[i].plays, self.plays);
            values.push(v);
            i += 1;
        }
        values
    }

    /// The way that the search takes from this node down the tree: the
    /// index of the child it goes to, at each node from here to the node at
    /// which it stops.
    pub fn select_path<F: Fn(usize, usize, usize) -> u64>(&self, expand_after: usize, value: &F) -> (path:
        Vec<usize>)
        requires
            forall|w: usize, p: usize, n: usize| call_requires(*value, (w, p, n)),
        ensures
            self.selects(expand_after, value, path@),
    {
        let mut path: Vec<usize> = Vec::new();
        self.descend(expand_after, value, &mut path);
        assert(path@ =~= path@.skip(0));
        path
    }

    fn descend<F: Fn(usize, usize, usize) -> u64>(
        &self,
        expand_after: usize,
        value: &F,
        path: &mut Vec<usize>,
    )
        requires
            forall|w: usize, p: usize, n: usize| call_requires(*value, (w, p, n)),
        ensures
            final(path)@.len() >= old(path)@.len(),
            final(path)@.take(old(path)@.len() as int) == old(path)@,
            self.selects(expand_after, value, final(path)@.skip(old(path)@.len() as int)),
        decreases self,
    {
        if self.children.len() == 0 || self.plays < expand_after {
            return;
        }
        let values = self.uct_values(value);
        let index = self.next_uct_child_index(&values);
        path.push(index);
        let ghost mid = path@;
        self.children[index].descend(expand_after, value, path);
        proof {
            let n = old(path)@.len() as int;
            let tail = final(path)@.skip(n);
            assert(tail[0] == mid[n]);
            assert(tail.skip(1) =~= final(path)@.skip(n + 1));
        }
    }

    /// Whether `path` leads from this node down the tree and every node on
    /// the way can count one more play.
    pub fn has_room(&self, path: &Vec<usize>) -> (b: bool)
        ensures
            b == self.can_credit(path@, 0),
    {
        self.has_room_from(path, 0)
    }

    fn has_room_from(&self, path: &Vec<usize>, k: usize) -> (b: bool)
        requires
            k <= path@.len(),
        ensures
            b == self.can_credit(path@, k as int),
        decreases path@.len() - k,
    {
        if self.plays == usize::MAX {
            return false;
        }
        if k == path.len() {
            return true;
        }
        let index: usize = path[k];
        if index >= self.children.len() {
            return false;
        }
        self.children[index].has_room_from(path, k + 1)
    }

    /// Counts one simulation that went from this node along `path` and was
    /// won by `winner`, `to_move` being the player to move at this node.
    /// Where the path does not lead down the tree, or a counter on the way
    /// is at its limit, nothing is counted and the answer is `false`.
    pub fn backpropagate(&mut self, path: &Vec<usize>, to_move: Color, winner: Color) -> (done: bool)
        requires
            old(self).wf(),
        ensures
            final(self).wf(),
            done == old(self).can_credit(path@, 0),
            done ==> old(self).credited(final(self), path@, 0, to_move, winner),
            !done ==> *final(self) == *old(self),
    {
        if !self.has_room(path) {
            return false;
        }
        self.credit(path, 0, to_move, winner);
        true
    }

    fn credit(&mut self, path: &Vec<usize>, k: usize, to_move: Color, winner: Color)
        requires
            old(self).wf(),
            k <= path@.len(),
            old(self).can_credit(path@, k as int),
        ensures
            final(self).wf(),
            old(self).credited(final(self), path@, k as int, to_move, winner),
        decreases path@.len() - k,
    {
        self.plays += 1;
        if to_move == winner.opposite() {
            self.wins += 1;
        }
        if k < path.len() {
            let index: usize = path[k];
            let child = &mut self.children[index];
            child.credit(path, k + 1, to_move.opposite(), winner);
        }
    }
}

/// Where a child was never visited, the search visits such a child next,
/// and none that was visited, whatever the values are.
pub proof fn lemma_unvisited_first<G>(children: Seq<Node<G>>, values: Seq<u64>, i: int, unvisited: int)
    requires
        uct_choice(children, values, i),
        0 <= unvisited < children.len(),
        children[unvisited].spec_plays() == 0,
    ensures
        children[i].spec_plays() == 0,
        i <= unvisited,
{
}

/// No node of a tree has more wins than plays: not the root of a
/// well-formed tree, and none of its children, which are well-formed trees
/// in turn. Each child has the move that leads to it.
pub proof fn lemma_wins_at_most_plays<G>(node: Node<G>)
    requires
        node.wf(),
    ensures
        node.spec_wins() <= node.spec_plays(),
        forall|i: int|
            0 <= i < node.spec_children().len() ==> (#[trigger] node.spec_children()[i]).wf()
                && node.spec_children()[i].spec_m() is Some,
{
}

} // verus!
