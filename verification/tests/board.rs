use iomrascalai::board::{Color, Coord, Move};

#[test]
fn opposite_is_the_other_colour() {
    assert_eq!(Color::Black.opposite(), Color::White);
    assert_eq!(Color::White.opposite(), Color::Black);
}

#[test]
fn colours_by_their_letters() {
    assert_eq!(Color::from_gtp("b"), Some(Color::Black));
    assert_eq!(Color::from_gtp("B"), Some(Color::Black));
    assert_eq!(Color::from_gtp("w"), Some(Color::White));
    assert_eq!(Color::from_gtp("W"), Some(Color::White));
}

#[test]
fn other_words_name_no_colour() {
    assert_eq!(Color::from_gtp(""), None);
    assert_eq!(Color::from_gtp("x"), None);
    assert_eq!(Color::from_gtp("bw"), None);
    assert_eq!(Color::from_gtp("black"), None);
}

#[test]
fn every_move_carries_its_colour() {
    assert_eq!(Move::Pass(Color::White).color(), Color::White);
    assert_eq!(Move::Play(Color::Black, Coord::new(3, 3)).color(), Color::Black);
}

#[test]
fn pass_and_play_are_told_apart() {
    assert!(Move::Pass(Color::Black).is_pass());
    assert!(!Move::Play(Color::Black, Coord::new(3, 3)).is_pass());
    assert_eq!(Move::Play(Color::Black, Coord::new(3, 4)).coord(), Coord::new(3, 4));
}

#[test]
fn moves_from_the_protocol() {
    assert_eq!(Move::from_gtp("b", "D4"), Some(Move::Play(Color::Black, Coord::new(4, 4))));
    assert_eq!(Move::from_gtp("W", "q16"), Some(Move::Play(Color::White, Coord::new(16, 16))));
    assert_eq!(Move::from_gtp("w", "pass"), Some(Move::Pass(Color::White)));
    assert_eq!(Move::from_gtp("b", "PASS"), Some(Move::Pass(Color::Black)));
}

#[test]
fn malformed_moves_from_the_protocol() {
    assert_eq!(Move::from_gtp("x", "D4"), None);
    assert_eq!(Move::from_gtp("b", "I4"), None);
    assert_eq!(Move::from_gtp("b", ""), None);
    assert_eq!(Move::from_gtp("b", "passs"), None);
    assert_eq!(Move::from_gtp("", "pass"), None);
}

#[test]
fn moves_to_the_protocol() {
    assert_eq!(Move::Play(Color::Black, Coord::new(4, 4)).to_gtp(), "D4");
    assert_eq!(Move::Play(Color::White, Coord::new(9, 3)).to_gtp(), "J3");
    assert_eq!(Move::Pass(Color::Black).to_gtp(), "pass");
}
