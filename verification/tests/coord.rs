use iomrascalai::board::Coord;

#[test]
fn new_keeps_column_and_row() {
    let c = Coord::new(4, 7);
    assert_eq!(c.col, 4);
    assert_eq!(c.row, 7);
}

#[test]
fn index_counts_row_by_row() {
    assert_eq!(Coord::new(1, 1).to_index(19), 0);
    assert_eq!(Coord::new(19, 1).to_index(19), 18);
    assert_eq!(Coord::new(1, 2).to_index(19), 19);
    assert_eq!(Coord::new(19, 19).to_index(19), 360);
    assert_eq!(Coord::new(3, 2).to_index(9), 11);
}

#[test]
fn from_index_gives_column_and_row() {
    assert_eq!(Coord::from_index(0, 9), Coord::new(1, 1));
    assert_eq!(Coord::from_index(11, 9), Coord::new(3, 2));
    assert_eq!(Coord::from_index(80, 9), Coord::new(9, 9));
    assert_eq!(Coord::from_index(360, 19), Coord::new(19, 19));
}

#[test]
fn from_index_beyond_the_board() {
    assert_eq!(Coord::from_index(81, 9), Coord::new(1, 10));
    assert_eq!(Coord::from_index(254, 1), Coord::new(1, 255));
}

#[test]
fn index_round_trip_for_every_point() {
    for size in [1u8, 9, 13, 19, 25] {
        for col in 1..=size {
            for row in 1..=size {
                let c = Coord::new(col, row);
                assert!(c.is_inside(size));
                let id = c.to_index(size);
                assert!(id < size as usize * size as usize);
                assert_eq!(Coord::from_index(id, size), c);
            }
        }
    }
}

#[test]
fn every_index_is_that_of_one_point() {
    for id in 0..361usize {
        let c = Coord::from_index(id, 19);
        assert!(c.is_inside(19));
        assert_eq!(c.to_index(19), id);
    }
}

#[test]
fn is_inside_checks_both_components() {
    assert!(Coord::new(1, 1).is_inside(9));
    assert!(Coord::new(9, 9).is_inside(9));
    assert!(!Coord::new(0, 5).is_inside(9));
    assert!(!Coord::new(5, 0).is_inside(9));
    assert!(!Coord::new(10, 5).is_inside(9));
    assert!(!Coord::new(5, 10).is_inside(9));
    assert!(!Coord::new(1, 1).is_inside(0));
}

#[test]
fn neighbours_in_the_middle() {
    assert_eq!(
        Coord::new(5, 5).neighbours(9),
        vec![Coord::new(4, 5), Coord::new(5, 4), Coord::new(5, 6), Coord::new(6, 5)]
    );
}

#[test]
fn neighbours_in_the_corners() {
    assert_eq!(Coord::new(1, 1).neighbours(9), vec![Coord::new(1, 2), Coord::new(2, 1)]);
    assert_eq!(Coord::new(9, 9).neighbours(9), vec![Coord::new(8, 9), Coord::new(9, 8)]);
    assert_eq!(Coord::new(1, 1).neighbours(1), vec![]);
}

#[test]
fn neighbours_on_the_edge() {
    assert_eq!(
        Coord::new(1, 5).neighbours(9),
        vec![Coord::new(1, 4), Coord::new(1, 6), Coord::new(2, 5)]
    );
}

#[test]
fn neighbours_of_a_point_off_the_board() {
    assert_eq!(Coord::new(0, 5).neighbours(9), vec![Coord::new(1, 5)]);
    assert_eq!(Coord::new(0, 5).neighbours(255), vec![Coord::new(1, 5)]);
    assert_eq!(Coord::new(255, 255).neighbours(255), vec![Coord::new(254, 255), Coord::new(255, 254)]);
    assert_eq!(Coord::new(20, 20).neighbours(9), vec![]);
}

#[test]
fn diagonals_in_the_middle_and_in_a_corner() {
    assert_eq!(
        Coord::new(5, 5).diagonals(9),
        vec![Coord::new(4, 4), Coord::new(4, 6), Coord::new(6, 4), Coord::new(6, 6)]
    );
    assert_eq!(Coord::new(1, 1).diagonals(9), vec![Coord::new(2, 2)]);
    assert_eq!(Coord::new(9, 1).diagonals(9), vec![Coord::new(8, 2)]);
}

#[test]
fn from_gtp_reads_letter_and_row() {
    assert_eq!(Coord::from_gtp("A1"), Coord::new(1, 1));
    assert_eq!(Coord::from_gtp("D4"), Coord::new(4, 4));
    assert_eq!(Coord::from_gtp("H8"), Coord::new(8, 8));
    assert_eq!(Coord::from_gtp("J9"), Coord::new(9, 9));
    assert_eq!(Coord::from_gtp("T19"), Coord::new(19, 19));
    assert_eq!(Coord::from_gtp("Z255"), Coord::new(25, 255));
}

#[test]
fn from_gtp_takes_small_letters() {
    assert_eq!(Coord::from_gtp("d4"), Coord::new(4, 4));
    assert_eq!(Coord::from_gtp("j10"), Coord::new(9, 10));
}

#[test]
fn parse_turns_down_what_is_no_vertex() {
    assert_eq!(Coord::parse(&"".chars().collect()), None);
    assert_eq!(Coord::parse(&"D".chars().collect()), None);
    assert_eq!(Coord::parse(&"4D".chars().collect()), None);
    assert_eq!(Coord::parse(&"D4x".chars().collect()), None);
    assert_eq!(Coord::parse(&"D256".chars().collect()), None);
    assert_eq!(Coord::parse(&"D+4".chars().collect()), None);
    assert_eq!(Coord::parse(&"I5".chars().collect()), None);
    assert_eq!(Coord::parse(&"i5".chars().collect()), None);
    assert_eq!(Coord::parse(&"\u{e9}5".chars().collect()), None);
}

#[test]
fn parse_takes_leading_zeros_and_row_zero() {
    assert_eq!(Coord::parse(&"D04".chars().collect()), Some(Coord::new(4, 4)));
    assert_eq!(Coord::parse(&"D0".chars().collect()), Some(Coord::new(4, 0)));
    assert_eq!(Coord::parse(&"D000255".chars().collect()), Some(Coord::new(4, 255)));
}

#[test]
fn to_gtp_skips_the_letter_i() {
    assert_eq!(Coord::new(1, 1).to_gtp(), "A1");
    assert_eq!(Coord::new(8, 1).to_gtp(), "H1");
    assert_eq!(Coord::new(9, 1).to_gtp(), "J1");
    assert_eq!(Coord::new(19, 19).to_gtp(), "T19");
    assert_eq!(Coord::new(25, 255).to_gtp(), "Z255");
    assert_eq!(Coord::new(4, 0).to_gtp(), "D0");
    assert_eq!(Coord::new(4, 10).to_gtp(), "D10");
    assert_eq!(Coord::new(4, 100).to_gtp(), "D100");
}

#[test]
fn no_vertex_holds_the_letter_i() {
    for col in 1..=25u8 {
        for row in [0u8, 1, 9, 10, 19, 99, 100, 255] {
            assert!(!Coord::new(col, row).to_gtp().contains('I'));
        }
    }
}

#[test]
fn vertex_round_trip() {
    for col in 1..=25u8 {
        for row in 0..=255u8 {
            let c = Coord::new(col, row);
            let v = c.to_gtp();
            assert_eq!(Coord::from_gtp(&v), c);
            assert_eq!(Coord::from_gtp(&v.to_lowercase()), c);
            assert_eq!(Coord::from_gtp(&v.to_lowercase()).to_gtp(), v);
        }
    }
}

#[test]
fn a_point_in_words() {
    assert_eq!(Coord::new(4, 7).show(), "4, 7");
    assert_eq!(Coord::new(19, 10).show(), "19, 10");
    assert_eq!(Coord::new(0, 255).show(), "0, 255");
}
