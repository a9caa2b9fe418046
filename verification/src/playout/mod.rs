//! Playouts: games played to their end by a fast policy.

use vstd::prelude::*;
use rand::XorShiftRng;
use crate::board::{Color, Coord, Move};
use crate::config::Config;
use crate::rng::{next_u32, next_usize};
use self::heuristics::{gathers, latest};

pub mod heuristics;

verus! {

/// A chain of stones, as the board reports it.
#[derive(Debug)]
pub struct Chain {
    pub color: Color,
    /// The points of its stones.
    pub coords: Vec<Coord>,
    /// The vacant points next to it.
    pub liberties: Vec<Coord>,
    /// The moves that save the chain, none of which only leads into a
    /// ladder. The policy reads them of the first chain in danger, and of
    /// no other.
    pub saving_moves: Vec<Move>,
    /// The moves that save the chain for the moment, ladders not looked at.
    /// The policy reads them of the first chain in danger, and of no other.
    pub saving_moves_unchecked: Vec<Move>,
}

/// A vacant point, and what the board reports of a stone that the player to
/// move would put on it.
#[derive(Clone, Copy, Debug)]
pub struct Point {
    pub coord: Coord,
    /// Whether the rules allow the stone.
    pub legal: bool,
    /// Whether the point is an eye of the player to move.
    pub eye: bool,
    /// Whether the stone would leave its own chain with one liberty.
    pub self_atari: bool,
    /// Whether the chain that the stone would belong to has fewer stones
    /// than the cutoff for self-atari.
    pub short_chain: bool,
    /// The number of patterns that match at the point.
    pub patterns: usize,
    /// For a point in an eye of several points, the move into the middle of
    /// that eye.
    pub middle_of_eye: Option<Move>,
}

/// What the policy reads of a board before it picks a move.
#[derive(Debug)]
pub struct Position {
    pub size: u8,
    pub next_player: Color,
    pub game_over: bool,
    pub chains: Vec<Chain>,
    pub vacant: Vec<Point>,
}

/// How often the random policy draws before it settles for the first
/// playable point.
pub const DRAW_LIMIT: usize = 1_000_000;

/// What one draw of the random policy leads to: a move, or another draw,
/// for which the pass is among the candidates or not.
#[derive(Clone, Copy, Debug, PartialEq, Eq, Structural)]
pub enum Draw {
    Done(Move),
    Again(bool),
}

/// Whether a chain of the given colour is in atari and worth saving: it
/// has more than one stone and exactly one liberty.
pub open spec fn in_danger(chain: &Chain, color: Color) -> bool {
    chain.color == color && chain.coords@.len() > 1 && chain.liberties@.len() == 1
}

/// Whether chain `i` is the first chain in danger.
pub open spec fn first_in_danger(chains: Seq<Chain>, color: Color, i: int) -> bool {
    &&& 0 <= i < chains.len()
    &&& in_danger(&chains[i], color)
    &&& forall|j: int| 0 <= j < i ==> !in_danger(#[trigger] &chains[j], color)
}

/// Whether a stone of the player to move is legal at the point `c` and a
/// pattern matches there.
pub open spec fn matches_at(position: &Position, c: Coord) -> bool {
    exists|i: int|
        0 <= i < position.vacant@.len() && (#[trigger] position.vacant@[i]).coord == c
            && position.vacant@[i].legal && position.vacant@[i].patterns > 0
}

/// The playout policy with its options.
pub struct Playout {
    config: Config,
}

impl Playout {
    pub closed spec fn config(&self) -> Config {
        self.config
    }

    /// Whether the policy plays on a point: not into an eye of its own, and
    /// into self-atari only with a chain shorter than the cutoff.
    pub open spec fn playable(&self, point: &Point) -> bool {
        !point.eye && (!point.self_atari || point.short_chain)
    }

    /// Whether the random policy may play on a point.
    pub open spec fn admits(&self, point: &Point) -> bool {
        point.legal && self.playable(point)
    }

    /// Whether point `i` is the first that the random policy may play on.
    pub open spec fn first_admitted(&self, vacant: Seq<Point>, i: int) -> bool {
        &&& 0 <= i < vacant.len()
        &&& self.admits(&vacant[i])
        &&& forall|j: int| 0 <= j < i ==> !self.admits(#[trigger] &vacant[j])
    }

    /// The move that is played for a point: the stone on it, or, where the
    /// option is on and the board names one, the move into the middle of
    /// the eye.
    pub open spec fn settled(&self, color: Color, point: &Point) -> Move {
        if self.config().playout.play_in_middle_of_eye && point.middle_of_eye is Some {
            point.middle_of_eye->0
        } else {
            Move::Play(color, point.coord)
        }
    }

    /// What the draw `r` leads to. The candidates are the vacant points
    /// from `first` on and, with `include_pass`, the pass after them. The
    /// one that `r` picks is a pass; or a point that is not admitted, which
    /// means another draw; or a self-atari drawn while the pass is not yet
    /// a candidate, which makes it one for the next draw; or a point that
    /// is played.
    pub open spec fn drawn(
        &self,
        position: &Position,
        first: int,
        include_pass: bool,
        r: usize,
    ) -> Draw {
        let vacant = position.vacant@;
        let candidates = vacant.len() - first + if include_pass {
            1int
        } else {
            0int
        };
        let i = first + r as int % candidates;
        if i == vacant.len() {
            Draw::Done(Move::Pass(position.next_player))
        } else if !self.admits(&vacant[i]) {
            Draw::Again(include_pass)
        } else if !include_pass && vacant[i].self_atari {
            Draw::Again(true)
        } else {
            Draw::Done(self.settled(position.next_player, &vacant[i]))
        }
    }

    /// The moves that the atari policy chooses among: those that save the
    /// first chain in danger, checked for ladders or not as the options
    /// say. There are none where no chain is in danger.
    pub open spec fn rescues(&self, position: &Position) -> Seq<Move> {
        let chains = position.chains@;
        if exists|i: int| first_in_danger(chains, position.next_player, i) {
            let i = choose|i: int| first_in_danger(chains, position.next_player, i);
            if self.config().playout.ladder_check {
                chains[i].saving_moves@
            } else {
                chains[i].saving_moves_unchecked@
            }
        } else {
            Seq::empty()
        }
    }

    /// Whether `m` is the move of the pattern policy for the points
    /// `coords`: a stone on the first of them at which a pattern matches.
    pub open spec fn pattern_pick(position: &Position, coords: Seq<Coord>, m: Option<Move>) -> bool {
        match m {
            Some(m) => exists|k: int|
                {
                    &&& 0 <= k < coords.len()
                    &&& matches_at(position, #[trigger] coords[k])
                    &&& forall|j: int| 0 <= j < k ==> !matches_at(position, #[trigger] coords[j])
                    &&& m == Move::Play(position.next_player, coords[k])
                },
            None => forall|k: int| 0 <= k < coords.len() ==> !matches_at(position, #[trigger] coords[k]),
        }
    }

    /// Whether `m` is a move that the random policy can come to. Where no
    /// vacant point is admitted it passes. Else it plays for an admitted
    /// point; and it can pass too if one of them is a self-atari.
    pub open spec fn random_pick(&self, position: &Position, m: Move) -> bool {
        let vacant = position.vacant@;
        let pass = Move::Pass(position.next_player);
        if forall|i: int| 0 <= i < vacant.len() ==> !self.admits(#[trigger] &vacant[i]) {
            m == pass
        } else {
            ||| exists|i: int|
                0 <= i < vacant.len() && self.admits(#[trigger] &vacant[i]) && m == self.settled(
                    position.next_player,
                    &vacant[i],
                )
            ||| m == pass && exists|i: int|
                0 <= i < vacant.len() && self.admits(#[trigger] &vacant[i]) && vacant[i].self_atari
        }
    }

    /// Whether the patterns can be consulted in a turn: they are in use, in
    /// more than none of a hundred turns.
    pub open spec fn may_consult(&self) -> bool {
        self.config().playout.use_patterns && self.config().playout.pattern_probability > 0
    }

    /// Whether the patterns are consulted in every turn.
    pub open spec fn must_consult(&self) -> bool {
        self.config().playout.use_patterns && self.config().playout.pattern_probability >= 100
    }

    /// Whether `m` is a move that the policy can come to in a position,
    /// with `heuristic` as the points at which it looks for patterns. Where
    /// it looks for chains in atari and a move saves the first of them, it
    /// plays such a move. Else it plays the move of the pattern policy, in
    /// a turn in which the patterns are consulted and one matches, and a
    /// move of the random policy in any other turn.
    pub open spec fn policy_pick(&self, position: &Position, heuristic: Seq<Coord>, m: Move) -> bool {
        if self.config().playout.atari_check && self.rescues(position).len() > 0 {
            self.rescues(position).contains(m)
        } else {
            ||| self.may_consult() && Playout::pattern_pick(position, heuristic, Some(m))
            ||| {
                &&& self.must_consult() ==> Playout::pattern_pick(position, heuristic, None)
                &&& self.random_pick(position, m)
            }
        }
    }

    pub fn new(config: Config) -> (p: Playout)
        ensures
            p.config() == config,
    {
        Playout { config }
    }

    /// Whether the policy plays on a point. Don't self-atari strings that
    /// will make an eye after dying, which is strings of the cutoff's
    /// length and more; suicide for smaller groups is ok.
    pub fn is_playable(&self, point: &Point) -> (b: bool)
        ensures
            b == self.playable(point),
    {
        !point.eye && (!point.self_atari || point.short_chain)
    }

    /// The number of moves after which a playout is cut short: three for
    /// every point of the board.
    pub fn max_moves(&self, size: u8) -> (n: usize)
        ensures
            n == 3 * size * size,
    {
        let side: usize = size as usize;
        assert(side * side <= 255 * 255 && side * side * 3 == 3 * side * side) by (nonlinear_arith)
            requires
                side <= 255,
        ;
        side * side * 3
    }

    /// The move of the policy in a position: a move that saves a chain in
    /// atari, where that is looked for and there is one; else the move of
    /// the pattern policy for the given points, in the turns in which the
    /// patterns are consulted and one matches; else a random move.
    pub fn select_move(&self, position: &Position, heuristic_set: Vec<Coord>, rng: &mut XorShiftRng) -> (m:
        Move)
        ensures
            self.policy_pick(position, heuristic_set@, m),
    {
        if self.check_for_atari() {
            let possible_move = self.atari_move(position, rng);
            if possible_move.is_some() {
                return possible_move.unwrap();
            }
        }
        if self.use_patterns(rng) {
            let possible_move = self.pattern_move(heuristic_set, position);
            if possible_move.is_some() {
                return possible_move.unwrap();
            }
        }
        self.random_move(position, rng)
    }

    /// The first chain of the player to move that is in danger.
    pub fn chain_in_danger(position: &Position) -> (r: Option<usize>)
        ensures
            r matches Some(i) ==> first_in_danger(position.chains@, position.next_player, i as int),
            r is None ==> forall|j: int|
                0 <= j < position.chains@.len() ==> !in_danger(
                    #[trigger] &position.chains@[j],
                    position.next_player,
                ),
    {
        let mut i: usize = 0;
        while i < position.chains.len()
            invariant
                i <= position.chains@.len(),
                forall|j: int| 0 <= j < i ==> !in_danger(#[trigger] &position.chains@[j], position.next_player),
            decreases position.chains@.len() - i,
        {
            let chain = &position.chains[i];
            if chain.color == position.next_player && chain.coords.len() > 1 && chain.liberties.len() == 1 {
                return Some(i);
            }
            i += 1;
        }
        None
    }

    /// The move at the place that the number `r` picks among `moves`.
    pub fn pick(moves: &Vec<Move>, r: usize) -> (m: Move)
        requires
            moves@.len() > 0,
        ensures
            m == moves@[r as int % moves@.len() as int],
    {
        moves[r % moves.len()]
    }

    /// If own group of more than one stone has one liberty, a move that
    /// saves it, where there is one. Chance picks among several.
    pub fn atari_move(&self, position: &Position, rng: &mut XorShiftRng) -> (r: Option<Move>)
        ensures
            self.rescues(position).len() == 0 ==> r is None,
            self.rescues(position).len() > 0 ==> r is Some && self.rescues(position).contains(r->0),
    {
        match Playout::chain_in_danger(position) {
            Some(i) => {
                let chain = &position.chains[i];
                let solutions = if self.check_for_ladders() {
                    &chain.saving_moves
                } else {
                    &chain.saving_moves_unchecked
                };
                if solutions.len() > 0 {
                    //if we can actually save it
                    let random = next_usize(rng);
                    Some(Playout::pick(solutions, random))
                } else {
                    None
                }
            },
            None => {
                None
            },
        }
    }

    /// The move of the pattern policy for the points `coords`. This works
    /// as coords is randomly ordered, so taking the first we find is OK.
    pub fn pattern_move(&self, coords: Vec<Coord>, position: &Position) -> (r: Option<Move>)
        ensures
            Playout::pattern_pick(position, coords@, r),
    {
        let mut k: usize = 0;
        while k < coords.len()
            invariant
                k <= coords@.len(),
                forall|j: int| 0 <= j < k ==> !matches_at(position, #[trigger] coords@[j]),
            decreases coords@.len() - k,
        {
            let m = Move::Play(position.next_player, coords[k]);
            if self.matches(position, &m) {
                return Some(m);
            }
            k += 1;
        }
        None
    }

    /// Whether `m` puts a stone on a point where the stone is legal and a
    /// pattern matches.
    pub fn matches(&self, position: &Position, m: &Move) -> (b: bool)
        ensures
            b == (*m matches Move::Play(_, c) && matches_at(position, c)),
    {
        match m {
            Move::Pass(_) => false,
            Move::Play(_, c) => {
                let mut i: usize = 0;
                while i < position.vacant.len()
                    invariant
                        i <= position.vacant@.len(),
                        *m == Move::Play(m.mover(), *c),
                        forall|j: int|
                            0 <= j < i ==> !((#[trigger] position.vacant@[j]).coord == *c
                                && position.vacant@[j].legal && position.vacant@[j].patterns > 0),
                    decreases position.vacant@.len() - i,
                {
                    let point = &position.vacant[i];
                    if point.coord == *c && point.legal && point.patterns > 0 {
                        return true;
                    }
                    i += 1;
                }
                false
            },
        }
    }

    /// The first vacant point that the random policy may play on.
    pub fn first_playable(&self, position: &Position) -> (r: Option<usize>)
        ensures
            r matches Some(i) ==> self.first_admitted(position.vacant@, i as int),
            r is None ==> forall|j: int|
                0 <= j < position.vacant@.len() ==> !self.admits(#[trigger] &position.vacant@[j]),
    {
        let mut i: usize = 0;
        while i < position.vacant.len()
            invariant
                i <= position.vacant@.len(),
                forall|j: int| 0 <= j < i ==> !self.admits(#[trigger] &position.vacant@[j]),
            decreases position.vacant@.len() - i,
        {
            let point = &position.vacant[i];
            if point.legal && self.is_playable(point) {
                return Some(i);
            }
            i += 1;
        }
        None
    }

    /// What the draw `r` leads to, with the vacant points from `first` on
    /// as candidates and, with `include_pass`, the pass.
    pub fn random_choice(&self, position: &Position, first: usize, include_pass: bool, r: usize) -> (d:
        Draw)
        requires
            first < position.vacant@.len(),
        ensures
            d == self.drawn(position, first as int, include_pass, r),
    {
        let len: usize = position.vacant.len();
        let candidates: u128 = (len - first) as u128 + if include_pass {
            1u128
        } else {
            0u128
        };
        let offset: usize = (r as u128 % candidates) as usize;
        let i: usize = first + offset;
        if i == len {
            return Draw::Done(Move::Pass(position.next_player));
        }
        let point = &position.vacant[i];
        if point.legal && self.is_playable(point) {
            if !include_pass && point.self_atari {
                //try to pass in a seki sometimes
                Draw::Again(true)
            } else {
                Draw::Done(self.settle(position.next_player, point))
            }
        } else {
            Draw::Again(include_pass)
        }
    }

    /// The move that is played for a point.
    pub fn settle(&self, color: Color, point: &Point) -> (m: Move)
        ensures
            m == self.settled(color, point),
    {
        let m = Move::Play(color, point.coord);
        if self.play_in_middle_of_eye() {
            match point.middle_of_eye {
                Some(middle) => middle,
                None => m,
            }
        } else {
            m
        }
    }

    /// A random move: a pass where no vacant point is admitted, else what
    /// the draws lead to. After `DRAW_LIMIT` draws that led to no move, the
    /// first admitted point is played.
    pub fn random_move(&self, position: &Position, rng: &mut XorShiftRng) -> (m: Move)
        ensures
            self.random_pick(position, m),
    {
        match self.first_playable(position) {
            Some(first) => {
                let mut include_pass: bool = false;
                let mut draws: usize = 0;
                while draws < DRAW_LIMIT
                    invariant
                        self.first_admitted(position.vacant@, first as int),
                        include_pass ==> exists|i: int|
                            0 <= i < position.vacant@.len() && self.admits(#[trigger] &position.vacant@[i])
                                && position.vacant@[i].self_atari,
                    decreases DRAW_LIMIT - draws,
                {
                    let r = next_usize(rng);
                    match self.random_choice(position, first, include_pass, r) {
                        Draw::Done(m) => {
                            return m;
                        },
                        Draw::Again(pass) => {
                            include_pass = pass;
                        },
                    }
                    draws += 1;
                }
                self.settle(position.next_player, &position.vacant[first])
            },
            None => Move::Pass(position.next_player),
        }
    }

    pub fn check_for_ladders(&self) -> (b: bool)
        ensures
            b == self.config().playout.ladder_check,
    {
        self.config.playout.ladder_check
    }

    pub fn check_for_atari(&self) -> (b: bool)
        ensures
            b == self.config().playout.atari_check,
    {
        self.config.playout.atari_check
    }

    /// Whether the number `sample` makes a turn one in which the patterns
    /// are consulted: its last two decimal digits are below the
    /// probability in percent.
    pub fn pattern_draw(&self, sample: u32) -> (b: bool)
        ensures
            b == (self.config().playout.use_patterns && sample % 100
                < self.config().playout.pattern_probability),
    {
        self.config.playout.use_patterns && sample % 100 < self.config.playout.pattern_probability as u32
    }

    /// Whether the patterns are consulted in this turn: never where they
    /// are switched off, else as chance has it.
    pub fn use_patterns(&self, rng: &mut XorShiftRng) -> (b: bool)
        ensures
            b ==> self.may_consult(),
            self.must_consult() ==> b,
    {
        if self.config.playout.use_patterns {
            let sample = next_u32(rng);
            self.pattern_draw(sample)
        } else {
            false
        }
    }

    pub fn play_in_middle_of_eye(&self) -> (b: bool)
        ensures
            b == self.config().playout.play_in_middle_of_eye,
    {
        self.config.playout.play_in_middle_of_eye
    }

    /// The number of stones from which on a chain is not put into atari by
    /// its own player. The board is asked with it.
    pub fn cutoff(&self) -> (n: usize)
        ensures
            n == self.config().playout.no_self_atari_cutoff,
    {
        self.config.playout.no_self_atari_cutoff
    }
}

/// A playout under way: the size of the board, and the moves played so
/// far.
pub struct Run {
    size: u8,
    moves: Vec<Move>,
}

impl Run {
    pub closed spec fn size(&self) -> u8 {
        self.size
    }

    pub closed spec fn moves(&self) -> Seq<Move> {
        self.moves@
    }

    /// The number of moves after which a playout is cut short.
    pub open spec fn max_moves(&self) -> int {
        3 * self.size() * self.size()
    }

    /// A playout holds no more moves than the cap allows, or none but the
    /// one it was started with.
    pub open spec fn wf(&self) -> bool {
        self.moves().len() <= self.max_moves() || self.moves().len() <= 1
    }

    /// The outcome of the playout, once the board has named the winner.
    pub fn finish(self, winner: Color) -> (r: PlayoutResult)
        requires
            self.wf(),
        ensures
            r.spec_moves() == self.moves(),
            r.spec_winner() == winner,
            self.size() >= 1 ==> r.spec_moves().len() <= 3 * self.size() * self.size(),
    {
        proof {
            if self.size() >= 1 {
                lemma_playout_length(self);
            }
        }
        PlayoutResult::new(self.moves, winner)
    }
}

/// On a board that has a point, a playout never holds more than three
/// moves for every point of the board.
pub proof fn lemma_playout_length(run: Run)
    requires
        run.wf(),
        run.size() >= 1,
    ensures
        run.moves().len() <= 3 * run.size() * run.size(),
{
    let n = run.size() as int;
    assert(3 * n * n >= 1) by (nonlinear_arith)
        requires
            n >= 1,
    ;
}

impl Playout {
    /// Starts a playout on a board of the given size. The initial move,
    /// where there is one, is its first move.
    pub fn begin(&self, size: u8, initial_move: Option<&Move>) -> (run: Run)
        ensures
            run.wf(),
            run.size() == size,
            run.moves() == match initial_move {
                Some(m) => seq![*m],
                None => Seq::<Move>::empty(),
            },
    {
        let mut moves: Vec<Move> = Vec::new();
        match initial_move {
            Some(m) => {
                moves.push(*m);
            },
            None => {},
        }
        Run { size, moves }
    }

    /// The next move of a playout, to be played on the board whose
    /// position is given; or `None` when the playout is over, which it is
    /// when the game is over or as many moves were played as the cap
    /// allows. The move is selected by the policy and counted as played.
    pub fn next_move(&self, run: &mut Run, position: &Position, rng: &mut XorShiftRng) -> (r: Option<Move>)
        requires
            old(run).wf(),
        ensures
            final(run).wf(),
            final(run).size() == old(run).size(),
            r is None <==> position.game_over || old(run).moves().len() >= old(run).max_moves(),
            r is None ==> final(run).moves() == old(run).moves(),
            r matches Some(m) ==> {
                &&& final(run).moves() == old(run).moves().push(m)
                &&& exists|heuristic: Seq<Coord>|
                    {
                        &&& gathers(
                            heuristic,
                            latest(old(run).moves(), self.config().playout.last_moves_for_heuristics),
                            position.size,
                        )
                        &&& self.policy_pick(position, heuristic, m)
                    }
            },
    {
        let max_moves: usize = self.max_moves(run.size);
        if position.game_over || run.moves.len() >= max_moves {
            return None;
        }
        let heuristic_set = self.heuristic_set(&run.moves, position.size, rng);
        let ghost heuristic = heuristic_set@;
        let m = self.select_move(position, heuristic_set, rng);
        run.moves.push(m);
        assert(gathers(
            heuristic,
            latest(old(run).moves(), self.config().playout.last_moves_for_heuristics),
            position.size,
        ));
        Some(m)
    }
}

/// The outcome of a playout: the moves in the order in which they were
/// played, and the winner.
pub struct PlayoutResult {
    moves: Vec<Move>,
    winner: Color,
}

impl PlayoutResult {
    pub closed spec fn spec_moves(&self) -> Seq<Move> {
        self.moves@
    }

    pub closed spec fn spec_winner(&self) -> Color {
        self.winner
    }

    pub fn new(moves: Vec<Move>, winner: Color) -> (r: PlayoutResult)
        ensures
            r.spec_moves() == moves@,
            r.spec_winner() == winner,
    {
        PlayoutResult { moves, winner }
    }

    pub fn moves(&self) -> (m: &Vec<Move>)
        ensures
            m@ == self.spec_moves(),
    {
        &self.moves
    }

    pub fn winner(&self) -> (c: Color)
        ensures
            c == self.spec_winner(),
    {
        self.winner
    }
}

} // verus!
