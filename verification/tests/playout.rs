use iomrascalai::board::{Color, Coord, Move};
use iomrascalai::config::Config;
use iomrascalai::playout::{Chain, Draw, Playout, Point, Position, DRAW_LIMIT};
use rand::{SeedableRng, XorShiftRng};

fn rng() -> XorShiftRng {
    XorShiftRng::from_seed([1, 2, 3, 4])
}

fn point(col: u8, row: u8) -> Point {
    Point {
        coord: Coord::new(col, row),
        legal: true,
        eye: false,
        self_atari: false,
        short_chain: true,
        patterns: 0,
        middle_of_eye: None,
    }
}

fn position(vacant: Vec<Point>) -> Position {
    Position { size: 9, next_player: Color::Black, game_over: false, chains: vec![], vacant }
}

fn chain(color: Color, stones: usize, liberties: usize) -> Chain {
    Chain {
        color,
        coords: (0..stones).map(|i| Coord::new(1, i as u8 + 1)).collect(),
        liberties: (0..liberties).map(|i| Coord::new(2, i as u8 + 1)).collect(),
        saving_moves: vec![],
        saving_moves_unchecked: vec![],
    }
}

fn play(col: u8, row: u8) -> Move {
    Move::Play(Color::Black, Coord::new(col, row))
}

fn with(change: fn(&mut Config)) -> Playout {
    let mut config = Config::default();
    change(&mut config);
    Playout::new(config)
}

#[test]
fn max_moves_is_three_for_every_point() {
    let playout = Playout::new(Config::default());
    assert_eq!(playout.max_moves(9), 243);
    assert_eq!(playout.max_moves(19), 1083);
    assert_eq!(playout.max_moves(1), 3);
    assert_eq!(playout.max_moves(0), 0);
    assert_eq!(playout.max_moves(255), 195075);
}

#[test]
fn options_are_read_from_the_config() {
    let playout = with(|c| {
        c.playout.ladder_check = true;
        c.playout.atari_check = true;
        c.playout.play_in_middle_of_eye = true;
        c.playout.no_self_atari_cutoff = 4;
    });
    assert!(playout.check_for_ladders());
    assert!(playout.check_for_atari());
    assert!(playout.play_in_middle_of_eye());
    assert_eq!(playout.cutoff(), 4);
    let plain = Playout::new(Config::default());
    assert!(!plain.check_for_ladders());
    assert!(!plain.check_for_atari());
    assert!(!plain.play_in_middle_of_eye());
    assert_eq!(plain.cutoff(), 7);
}

#[test]
fn an_eye_of_ones_own_is_not_playable() {
    let playout = Playout::new(Config::default());
    let mut p = point(3, 3);
    assert!(playout.is_playable(&p));
    p.eye = true;
    assert!(!playout.is_playable(&p));
}

#[test]
fn self_atari_is_playable_below_the_cutoff_only() {
    let playout = Playout::new(Config::default());
    let mut p = point(3, 3);
    p.self_atari = true;
    p.short_chain = true;
    assert!(playout.is_playable(&p));
    p.short_chain = false;
    assert!(!playout.is_playable(&p));
    p.self_atari = false;
    assert!(playout.is_playable(&p));
}

#[test]
fn the_first_chain_in_danger_is_found() {
    let mut pos = position(vec![]);
    pos.chains = vec![
        chain(Color::White, 3, 1),
        chain(Color::Black, 1, 1),
        chain(Color::Black, 3, 2),
        chain(Color::Black, 2, 1),
        chain(Color::Black, 5, 1),
    ];
    assert_eq!(Playout::chain_in_danger(&pos), Some(3));
    pos.next_player = Color::White;
    assert_eq!(Playout::chain_in_danger(&pos), Some(0));
    pos.chains.remove(0);
    assert_eq!(Playout::chain_in_danger(&pos), None);
}

#[test]
fn pick_goes_by_the_remainder() {
    let moves = vec![play(1, 1), play(2, 2), play(3, 3)];
    assert_eq!(Playout::pick(&moves, 0), play(1, 1));
    assert_eq!(Playout::pick(&moves, 4), play(2, 2));
    assert_eq!(Playout::pick(&moves, 5), play(3, 3));
    assert_eq!(Playout::pick(&moves, usize::MAX), play(1, 1));
}

#[test]
fn atari_move_saves_the_first_chain_in_danger() {
    let playout = with(|c| c.playout.atari_check = true);
    let mut pos = position(vec![point(5, 5)]);
    let mut safe = chain(Color::Black, 3, 2);
    safe.saving_moves_unchecked = vec![play(9, 9)];
    let mut danger = chain(Color::Black, 2, 1);
    danger.saving_moves_unchecked = vec![play(4, 4)];
    danger.saving_moves = vec![play(6, 6)];
    pos.chains = vec![safe, danger];
    let mut rng = rng();
    for _ in 0..10 {
        assert_eq!(playout.atari_move(&pos, &mut rng), Some(play(4, 4)));
    }
    let checked = with(|c| {
        c.playout.atari_check = true;
        c.playout.ladder_check = true;
    });
    assert_eq!(checked.atari_move(&pos, &mut rng), Some(play(6, 6)));
}

#[test]
fn atari_move_picks_among_the_saving_moves() {
    let playout = with(|c| c.playout.atari_check = true);
    let mut pos = position(vec![]);
    let mut danger = chain(Color::Black, 2, 1);
    danger.saving_moves_unchecked = vec![play(4, 4), play(5, 5), play(6, 6)];
    pos.chains = vec![danger];
    let mut rng = rng();
    let mut seen = vec![];
    for _ in 0..100 {
        let m = playout.atari_move(&pos, &mut rng).unwrap();
        assert!(m == play(4, 4) || m == play(5, 5) || m == play(6, 6));
        if !seen.contains(&m) {
            seen.push(m);
        }
    }
    assert_eq!(seen.len(), 3);
}

#[test]
fn atari_move_has_nothing_without_danger_or_without_a_way_out() {
    let playout = with(|c| c.playout.atari_check = true);
    let mut rng = rng();
    let mut pos = position(vec![point(5, 5)]);
    assert_eq!(playout.atari_move(&pos, &mut rng), None);
    pos.chains = vec![chain(Color::Black, 2, 1)];
    assert_eq!(playout.atari_move(&pos, &mut rng), None);
}

#[test]
fn a_pattern_matches_where_the_stone_is_legal() {
    let playout = Playout::new(Config::default());
    let mut hit = point(3, 3);
    hit.patterns = 2;
    let mut illegal = point(4, 4);
    illegal.patterns = 1;
    illegal.legal = false;
    let pos = position(vec![point(2, 2), hit, illegal]);
    assert!(playout.matches(&pos, &play(3, 3)));
    assert!(!playout.matches(&pos, &play(2, 2)));
    assert!(!playout.matches(&pos, &play(4, 4)));
    assert!(!playout.matches(&pos, &play(7, 7)));
    assert!(!playout.matches(&pos, &Move::Pass(Color::Black)));
}

#[test]
fn pattern_move_takes_the_first_point_that_matches() {
    let playout = Playout::new(Config::default());
    let mut first = point(3, 3);
    first.patterns = 1;
    let mut second = point(6, 6);
    second.patterns = 4;
    let pos = position(vec![first, point(5, 5), second]);
    let coords = vec![Coord::new(5, 5), Coord::new(8, 8), Coord::new(6, 6), Coord::new(3, 3)];
    assert_eq!(playout.pattern_move(coords, &pos), Some(play(6, 6)));
    assert_eq!(playout.pattern_move(vec![Coord::new(5, 5)], &pos), None);
    assert_eq!(playout.pattern_move(vec![], &pos), None);
}

#[test]
fn the_first_playable_point_is_found() {
    let playout = Playout::new(Config::default());
    let mut illegal = point(1, 1);
    illegal.legal = false;
    let mut eye = point(2, 2);
    eye.eye = true;
    let pos = position(vec![illegal, eye, point(3, 3), point(4, 4)]);
    assert_eq!(playout.first_playable(&pos), Some(2));
    assert_eq!(playout.first_playable(&position(vec![illegal, eye])), None);
    assert_eq!(playout.first_playable(&position(vec![])), None);
}

#[test]
fn a_draw_picks_among_the_points_from_the_first_on() {
    let playout = Playout::new(Config::default());
    let pos = position(vec![point(1, 1), point(2, 2), point(3, 3), point(4, 4)]);
    assert_eq!(playout.random_choice(&pos, 1, false, 0), Draw::Done(play(2, 2)));
    assert_eq!(playout.random_choice(&pos, 1, false, 4), Draw::Done(play(3, 3)));
    assert_eq!(playout.random_choice(&pos, 1, false, 5), Draw::Done(play(4, 4)));
    assert_eq!(playout.random_choice(&pos, 1, false, 6), Draw::Done(play(2, 2)));
    assert_eq!(playout.random_choice(&pos, 0, false, 7), Draw::Done(play(4, 4)));
}

#[test]
fn a_draw_can_be_the_pass_once_it_is_a_candidate() {
    let playout = Playout::new(Config::default());
    let pos = position(vec![point(1, 1), point(2, 2), point(3, 3)]);
    assert_eq!(playout.random_choice(&pos, 1, true, 2), Draw::Done(Move::Pass(Color::Black)));
    assert_eq!(playout.random_choice(&pos, 1, true, 3), Draw::Done(play(2, 2)));
    assert_eq!(playout.random_choice(&pos, 1, false, 2), Draw::Done(play(2, 2)));
    assert_eq!(playout.random_choice(&pos, 0, true, usize::MAX), Draw::Done(Move::Pass(Color::Black)));
}

#[test]
fn a_draw_of_a_point_that_is_not_admitted_means_another_draw() {
    let playout = Playout::new(Config::default());
    let mut illegal = point(2, 2);
    illegal.legal = false;
    let mut eye = point(3, 3);
    eye.eye = true;
    let pos = position(vec![point(1, 1), illegal, eye]);
    assert_eq!(playout.random_choice(&pos, 0, false, 1), Draw::Again(false));
    assert_eq!(playout.random_choice(&pos, 0, true, 1), Draw::Again(true));
    assert_eq!(playout.random_choice(&pos, 0, false, 2), Draw::Again(false));
}

#[test]
fn a_self_atari_makes_the_pass_a_candidate() {
    let playout = Playout::new(Config::default());
    let mut seki = point(2, 2);
    seki.self_atari = true;
    let pos = position(vec![point(1, 1), seki]);
    assert_eq!(playout.random_choice(&pos, 0, false, 1), Draw::Again(true));
    assert_eq!(playout.random_choice(&pos, 0, true, 1), Draw::Done(play(2, 2)));
    assert_eq!(playout.random_choice(&pos, 0, true, 2), Draw::Done(Move::Pass(Color::Black)));
}

#[test]
fn a_move_into_an_eye_goes_to_its_middle_where_that_is_asked_for() {
    let mut p = point(2, 2);
    p.middle_of_eye = Some(play(3, 2));
    let pos = position(vec![p, point(5, 5)]);
    let plain = Playout::new(Config::default());
    assert_eq!(plain.random_choice(&pos, 0, false, 0), Draw::Done(play(2, 2)));
    assert_eq!(plain.settle(Color::Black, &p), play(2, 2));
    let playout = with(|c| c.playout.play_in_middle_of_eye = true);
    assert_eq!(playout.random_choice(&pos, 0, false, 0), Draw::Done(play(3, 2)));
    assert_eq!(playout.random_choice(&pos, 0, false, 1), Draw::Done(play(5, 5)));
    assert_eq!(playout.settle(Color::Black, &p), play(3, 2));
}

#[test]
fn random_move_passes_when_nothing_is_playable() {
    let playout = Playout::new(Config::default());
    let mut rng = rng();
    assert_eq!(playout.random_move(&position(vec![]), &mut rng), Move::Pass(Color::Black));
    let mut eye = point(2, 2);
    eye.eye = true;
    let mut illegal = point(3, 3);
    illegal.legal = false;
    let mut pos = position(vec![eye, illegal]);
    pos.next_player = Color::White;
    assert_eq!(playout.random_move(&pos, &mut rng), Move::Pass(Color::White));
}

#[test]
fn random_move_plays_an_admitted_point() {
    let playout = Playout::new(Config::default());
    let mut rng = rng();
    let mut eye = point(1, 1);
    eye.eye = true;
    let mut illegal = point(3, 3);
    illegal.legal = false;
    let pos = position(vec![eye, point(2, 2), illegal, point(4, 4)]);
    let mut seen = vec![];
    for _ in 0..200 {
        let m = playout.random_move(&pos, &mut rng);
        assert!(m == play(2, 2) || m == play(4, 4));
        if !seen.contains(&m) {
            seen.push(m);
        }
    }
    assert_eq!(seen.len(), 2);
}

#[test]
fn random_move_can_pass_in_a_seki() {
    let playout = Playout::new(Config::default());
    let mut rng = rng();
    let mut seki = point(2, 2);
    seki.self_atari = true;
    let pos = position(vec![seki]);
    let mut passes = 0;
    let mut plays = 0;
    for _ in 0..200 {
        let m = playout.random_move(&pos, &mut rng);
        if m == Move::Pass(Color::Black) {
            passes += 1;
        } else {
            assert_eq!(m, play(2, 2));
            plays += 1;
        }
    }
    assert!(passes > 0);
    assert!(plays > 0);
}

#[test]
fn the_draw_limit_leaves_room_for_many_draws() {
    assert!(DRAW_LIMIT >= 1000);
}

#[test]
fn patterns_are_consulted_as_the_probability_says() {
    let never = with(|c| {
        c.playout.use_patterns = false;
        c.playout.pattern_probability = 100;
    });
    assert!(!never.pattern_draw(0));
    let half = with(|c| {
        c.playout.use_patterns = true;
        c.playout.pattern_probability = 50;
    });
    assert!(half.pattern_draw(0));
    assert!(half.pattern_draw(49));
    assert!(!half.pattern_draw(50));
    assert!(!half.pattern_draw(99));
    assert!(half.pattern_draw(100));
    assert!(half.pattern_draw(4_294_967_249));
    assert!(!half.pattern_draw(u32::MAX));
}

#[test]
fn use_patterns_follows_switch_and_probability() {
    let mut rng = rng();
    let off = with(|c| c.playout.pattern_probability = 100);
    let zero = with(|c| c.playout.use_patterns = true);
    let always = with(|c| {
        c.playout.use_patterns = true;
        c.playout.pattern_probability = 100;
    });
    for _ in 0..50 {
        assert!(!off.use_patterns(&mut rng));
        assert!(!zero.use_patterns(&mut rng));
        assert!(always.use_patterns(&mut rng));
    }
}

#[test]
fn select_move_saves_a_chain_first() {
    let playout = with(|c| {
        c.playout.atari_check = true;
        c.playout.use_patterns = true;
        c.playout.pattern_probability = 100;
    });
    let mut hit = point(3, 3);
    hit.patterns = 1;
    let mut pos = position(vec![hit, point(5, 5)]);
    let mut danger = chain(Color::Black, 2, 1);
    danger.saving_moves_unchecked = vec![play(7, 7)];
    pos.chains = vec![danger];
    let mut rng = rng();
    assert_eq!(playout.select_move(&pos, vec![Coord::new(3, 3)], &mut rng), play(7, 7));
}

#[test]
fn select_move_plays_a_pattern_before_a_random_move() {
    let playout = with(|c| {
        c.playout.atari_check = true;
        c.playout.use_patterns = true;
        c.playout.pattern_probability = 100;
    });
    let mut hit = point(3, 3);
    hit.patterns = 1;
    let pos = position(vec![point(1, 1), hit, point(5, 5)]);
    let mut rng = rng();
    for _ in 0..20 {
        let coords = vec![Coord::new(5, 5), Coord::new(3, 3)];
        assert_eq!(playout.select_move(&pos, coords, &mut rng), play(3, 3));
    }
}

#[test]
fn select_move_falls_back_on_a_random_move() {
    let playout = Playout::new(Config::default());
    let mut hit = point(3, 3);
    hit.patterns = 1;
    hit.legal = false;
    let pos = position(vec![hit, point(5, 5)]);
    let mut rng = rng();
    for _ in 0..20 {
        assert_eq!(playout.select_move(&pos, vec![Coord::new(3, 3)], &mut rng), play(5, 5));
    }
}

#[test]
fn the_heuristic_set_holds_the_points_around_the_last_moves() {
    let playout = with(|c| c.playout.last_moves_for_heuristics = 2);
    let played = vec![play(1, 1), play(5, 5), Move::Pass(Color::White), play(9, 9)];
    let mut rng = rng();
    let coords = playout.heuristic_set(&played, 9, &mut rng);
    let mut sorted = coords.clone();
    sorted.sort_by_key(|c| (c.col, c.row));
    assert_eq!(sorted, vec![Coord::new(8, 8), Coord::new(8, 9), Coord::new(9, 8)]);
}

#[test]
fn the_points_around_the_latest_move_come_first() {
    let playout = with(|c| c.playout.last_moves_for_heuristics = 2);
    let played = vec![play(5, 5), play(4, 4)];
    for seed in 1..20u32 {
        let mut rng = XorShiftRng::from_seed([seed, 2, 3, 4]);
        let coords = playout.heuristic_set(&played, 9, &mut rng);
        assert_eq!(coords.len(), 14);
        let mut latest = coords[..8].to_vec();
        latest.sort_by_key(|c| (c.col, c.row));
        let mut around = Coord::new(4, 4).neighbours(9);
        around.extend(Coord::new(4, 4).diagonals(9));
        around.sort_by_key(|c| (c.col, c.row));
        assert_eq!(latest, around);
        for c in &coords[8..] {
            assert!(!around.contains(c));
            assert!(Coord::new(5, 5).neighbours(9).contains(c) || Coord::new(5, 5).diagonals(9).contains(c));
        }
        let mut all = coords.clone();
        all.sort_by_key(|c| (c.col, c.row));
        all.dedup();
        assert_eq!(all.len(), 14);
    }
}

#[test]
fn the_heuristic_set_is_empty_without_moves_to_consider() {
    let mut rng = rng();
    let none = Playout::new(Config::default());
    assert_eq!(none.heuristic_set(&vec![play(5, 5)], 9, &mut rng), vec![]);
    let some = with(|c| c.playout.last_moves_for_heuristics = 3);
    assert_eq!(some.heuristic_set(&vec![], 9, &mut rng), vec![]);
    assert_eq!(some.heuristic_set(&vec![Move::Pass(Color::Black)], 9, &mut rng), vec![]);
}

#[test]
fn chance_orders_the_points_around_one_move() {
    let playout = with(|c| c.playout.last_moves_for_heuristics = 1);
    let played = vec![play(5, 5)];
    let mut plain = Coord::new(5, 5).neighbours(9);
    plain.extend(Coord::new(5, 5).diagonals(9));
    let mut rng = rng();
    let mut shuffled = false;
    for _ in 0..20 {
        let coords = playout.heuristic_set(&played, 9, &mut rng);
        let mut sorted = coords.clone();
        sorted.sort_by_key(|c| (c.col, c.row));
        let mut expected = plain.clone();
        expected.sort_by_key(|c| (c.col, c.row));
        assert_eq!(sorted, expected);
        if coords != plain {
            shuffled = true;
        }
    }
    assert!(shuffled);
}

#[test]
fn a_playout_starts_with_the_initial_move() {
    let playout = Playout::new(Config::default());
    let first = play(3, 3);
    let run = playout.begin(9, Some(&first));
    let result = run.finish(Color::White);
    assert_eq!(result.moves(), &vec![first]);
    assert_eq!(result.winner(), Color::White);
    let empty = playout.begin(9, None).finish(Color::Black);
    assert!(empty.moves().is_empty());
    assert_eq!(empty.winner(), Color::Black);
}

#[test]
fn a_playout_ends_when_the_game_is_over() {
    let playout = Playout::new(Config::default());
    let mut rng = rng();
    let mut run = playout.begin(9, None);
    let mut pos = position(vec![point(4, 4)]);
    assert_eq!(playout.next_move(&mut run, &pos, &mut rng), Some(play(4, 4)));
    pos.vacant = vec![];
    pos.next_player = Color::White;
    assert_eq!(playout.next_move(&mut run, &pos, &mut rng), Some(Move::Pass(Color::White)));
    pos.game_over = true;
    assert_eq!(playout.next_move(&mut run, &pos, &mut rng), None);
    assert_eq!(playout.next_move(&mut run, &pos, &mut rng), None);
    let result = run.finish(Color::Black);
    assert_eq!(result.moves(), &vec![play(4, 4), Move::Pass(Color::White)]);
}

#[test]
fn a_playout_is_cut_short_after_three_moves_for_every_point() {
    let playout = Playout::new(Config::default());
    let mut rng = rng();
    let pos = position(vec![point(4, 4), point(5, 5)]);
    let mut run = playout.begin(9, None);
    let mut played = 0;
    while let Some(_) = playout.next_move(&mut run, &pos, &mut rng) {
        played += 1;
        assert!(played <= 243);
    }
    assert_eq!(played, 243);
    assert_eq!(run.finish(Color::Black).moves().len(), 243);
}

#[test]
fn the_initial_move_counts_towards_the_cap() {
    let playout = Playout::new(Config::default());
    let mut rng = rng();
    let mut pos = position(vec![point(1, 1)]);
    pos.size = 1;
    let first = play(1, 1);
    let mut run = playout.begin(1, Some(&first));
    let mut played = 0;
    while let Some(_) = playout.next_move(&mut run, &pos, &mut rng) {
        played += 1;
    }
    assert_eq!(played, 2);
    assert_eq!(run.finish(Color::Black).moves().len(), 3);
}
