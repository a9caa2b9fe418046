use iomrascalai::board::{Color, Coord, Move};
use iomrascalai::config::Config;
use iomrascalai::engine::uct::{Node, Search, Step};
use iomrascalai::playout::{Playout, PlayoutResult, Point, Position};
use rand::{SeedableRng, XorShiftRng};

/// A game on a small board without captures: a stone may go on any vacant
/// point, and whoever has more stones at the end wins.
#[derive(Clone)]
struct Toy {
    size: u8,
    stones: Vec<Option<Color>>,
    to_move: Color,
    passes: u8,
}

impl Toy {
    fn new(size: u8) -> Toy {
        Toy { size, stones: vec![None; size as usize * size as usize], to_move: Color::Black, passes: 0 }
    }

    fn vacant(&self) -> Vec<Coord> {
        (0..self.stones.len())
            .filter(|&i| self.stones[i].is_none())
            .map(|i| Coord::from_index(i, self.size))
            .collect()
    }

    fn legal_moves(&self) -> Vec<Move> {
        if self.over() {
            return vec![];
        }
        self.vacant().into_iter().map(|c| Move::Play(self.to_move, c)).collect()
    }

    fn play(&self, m: Move) -> Toy {
        let mut next = self.clone();
        match m {
            Move::Play(color, c) => {
                assert!(c.is_inside(self.size));
                let i = c.to_index(self.size);
                assert!(next.stones[i].is_none());
                next.stones[i] = Some(color);
                next.passes = 0;
            }
            Move::Pass(_) => next.passes += 1,
        }
        next.to_move = m.color().opposite();
        next
    }

    fn over(&self) -> bool {
        self.passes >= 2 || self.vacant().is_empty()
    }

    fn winner(&self) -> Color {
        let black = self.stones.iter().filter(|s| **s == Some(Color::Black)).count();
        let white = self.stones.iter().filter(|s| **s == Some(Color::White)).count();
        if black > white {
            Color::Black
        } else {
            Color::White
        }
    }

    fn position(&self) -> Position {
        let vacant = self
            .vacant()
            .into_iter()
            .map(|coord| Point {
                coord,
                legal: true,
                eye: false,
                self_atari: false,
                short_chain: true,
                patterns: 0,
                middle_of_eye: None,
            })
            .collect();
        Position { size: self.size, next_player: self.to_move, game_over: self.over(), chains: vec![], vacant }
    }

    fn successors(&self) -> Vec<(Move, Toy)> {
        self.legal_moves().into_iter().map(|m| (m, self.play(m))).collect()
    }
}

fn root_of(game: &Toy) -> Node<Toy> {
    Node::root(game.clone(), game.to_move, game.play(Move::Pass(game.to_move)), game.successors())
}

fn value(wins: usize, plays: usize, parent_plays: usize) -> u64 {
    let ratio = if plays == 0 { 0.0 } else { wins as f32 / plays as f32 };
    let confidence = ((parent_plays as f32).log10() / plays as f32).sqrt();
    let v = ratio + 0.44 * confidence;
    if v.is_nan() {
        0
    } else {
        (v * 1_000_000.0) as u64
    }
}

fn run_playout(playout: &Playout, game: &Toy, rng: &mut XorShiftRng) -> PlayoutResult {
    let mut board = game.clone();
    let mut run = playout.begin(board.size, None);
    while let Some(m) = playout.next_move(&mut run, &board.position(), rng) {
        board = board.play(m);
    }
    run.finish(board.winner())
}

fn simulate(root: &mut Node<Toy>, to_move: Color, playout: &Playout, rng: &mut XorShiftRng) {
    let path = root.select_path(1, &value);
    let leaf_game = {
        let mut node = &mut *root;
        for &i in &path {
            node = node.child(i);
        }
        let game = node.game().clone();
        if node.should_expand(1, game.over()) {
            node.expand(game.to_move, game.play(Move::Pass(game.to_move)), game.successors());
        }
        game
    };
    let result = run_playout(playout, &leaf_game, rng);
    assert!(result.moves().len() <= 3 * 9);
    assert!(root.backpropagate(&path, to_move, result.winner()));
}

fn search(game: &Toy, simulations: usize, stop_after: Option<usize>) -> (Node<Toy>, Vec<(Move, usize)>) {
    let playout = Playout::new(Config::default());
    let mut rng = XorShiftRng::from_seed([9, 8, 7, 6]);
    let mut root = root_of(game);
    let mut search = Search::new(simulations);
    let mut emitted = vec![];
    let mut polls = 0;
    for _ in 0..simulations + 10 {
        let cancelled = stop_after.map_or(false, |n| polls >= n);
        polls += 1;
        match search.next(cancelled) {
            Step::Simulate => simulate(&mut root, game.to_move, &playout, &mut rng),
            Step::Finish(count) => emitted.push((root.best_move(), count)),
            Step::Done => {}
        }
    }
    (root, emitted)
}

#[test]
fn a_search_emits_one_legal_move_and_its_simulations() {
    let game = Toy::new(3);
    let (_, emitted) = search(&game, 300, None);
    assert_eq!(emitted.len(), 1);
    let (m, simulations) = emitted[0];
    assert_eq!(simulations, 300);
    assert_eq!(m.color(), Color::Black);
    assert!(m.is_pass() || game.legal_moves().contains(&m));
}

#[test]
fn a_cancelled_search_emits_what_it_has() {
    let game = Toy::new(3);
    let (_, emitted) = search(&game, 300, Some(40));
    assert_eq!(emitted.len(), 1);
    let (m, simulations) = emitted[0];
    assert_eq!(simulations, 40);
    assert_eq!(m.color(), Color::Black);
    assert!(m.is_pass() || game.legal_moves().contains(&m));
}

#[test]
fn two_searches_in_a_row_give_moves_on_different_points() {
    let game = Toy::new(3);
    let (_, first) = search(&game, 200, None);
    let black = first[0].0;
    let game = game.play(black);
    let (_, second) = search(&game, 200, None);
    let white = second[0].0;
    assert_eq!(white.color(), Color::White);
    assert!(white.is_pass() || game.legal_moves().contains(&white));
    if !black.is_pass() && !white.is_pass() {
        assert!(black.coord() != white.coord());
    }
}

#[test]
fn the_search_visits_the_best_child_more_than_the_average() {
    let game = Toy::new(3);
    let (mut root, emitted) = search(&game, 1000, None);
    let best = root.best().plays();
    let children = root.child_count();
    assert_eq!(children, 10);
    assert_eq!(root.plays(), 1000);
    let mut total = 0;
    for i in 0..children {
        let child = root.child(i);
        assert!(child.wins() <= child.plays());
        total += child.plays();
    }
    assert_eq!(total, 999);
    assert!(best * children > total);
    assert!(!emitted[0].0.is_pass());
}

#[test]
fn every_simulation_but_the_first_goes_through_a_child_of_the_root() {
    let game = Toy::new(2);
    let (mut root, _) = search(&game, 50, None);
    assert_eq!(root.child_count(), 5);
    assert_eq!(root.plays(), 50);
    let mut visited = 0;
    for i in 0..5 {
        let child = root.child(i);
        if !child.is_leaf() {
            assert!(child.plays() >= 1);
        }
        visited += child.plays();
    }
    assert_eq!(visited, 49);
}
