//! Colours, moves and coordinates.

use vstd::prelude::*;
use crate::text::{chars_of, lower, reads_as};

pub mod coord;

pub use self::coord::Coord;
use self::coord::vertex;

verus! {

/// The colour of a player and of that player's stones.
#[derive(Clone, Copy, Debug, PartialEq, Eq, Hash, Structural)]
pub enum Color {
    Black,
    White,
}

impl Color {
    /// The colour of the opponent.
    pub open spec fn other(self) -> Color {
        match self {
            Color::Black => Color::White,
            Color::White => Color::Black,
        }
    }

    /// The colour that a word of the protocol names: `b` or `w`, in
    /// capitals or not.
    pub open spec fn named(word: Seq<char>) -> Option<Color> {
        if lower(word) == seq!['b'] {
            Some(Color::Black)
        } else if lower(word) == seq!['w'] {
            Some(Color::White)
        } else {
            None
        }
    }

    pub fn opposite(&self) -> (c: Color)
        ensures
            c == self.other(),
    {
        match self {
            Color::Black => Color::White,
            Color::White => Color::Black,
        }
    }

    /// The colour that a word of the protocol names, where it names one.
    pub fn from_gtp(gtp_color: &str) -> (r: Option<Color>)
        ensures
            r == Color::named(gtp_color@),
    {
        Color::parse(&chars_of(gtp_color))
    }

    /// The colour that a word of the protocol names, where it names one.
    pub fn parse(word: &Vec<char>) -> (r: Option<Color>)
        ensures
            r == Color::named(word@),
    {
        let black = vec!['b'];
        let white = vec!['w'];
        assert(black@ =~= seq!['b'] && white@ =~= seq!['w']);
        if reads_as(word, &black) {
            Some(Color::Black)
        } else if reads_as(word, &white) {
            Some(Color::White)
        } else {
            None
        }
    }
}

/// What a player does on a turn. Every move carries the colour of the
/// player who makes it.
#[derive(Clone, Copy, Debug, PartialEq, Eq, Hash, Structural)]
pub enum Move {
    Play(Color, Coord),
    Pass(Color),
}

/// Why a board turns a move down.
#[derive(Clone, Copy, Debug, PartialEq, Eq, Hash, Structural)]
pub enum IllegalMove {
    Suicide,
    Ko,
    Occupied,
    OutOfBounds,
}

/// The word that the protocol has for a pass.
pub open spec fn pass_word() -> Seq<char> {
    seq!['p', 'a', 's', 's']
}

impl Move {
    /// The colour of the player who makes the move.
    pub open spec fn mover(self) -> Color {
        match self {
            Move::Play(color, _) => color,
            Move::Pass(color) => color,
        }
    }

    /// The move that a colour word and a vertex of the protocol name. The
    /// vertex of a pass is the word `pass`, in capitals or not.
    pub open spec fn named(color: Seq<char>, place: Seq<char>) -> Option<Move> {
        match Color::named(color) {
            None => None,
            Some(c) => if lower(place) == pass_word() {
                Some(Move::Pass(c))
            } else {
                match vertex(place) {
                    Some(point) => Some(Move::Play(c, point)),
                    None => None,
                }
            },
        }
    }

    /// The vertex that the protocol has for the move.
    pub open spec fn gtp(self) -> Seq<char> {
        match self {
            Move::Play(_, point) => point.gtp(),
            Move::Pass(_) => pass_word(),
        }
    }

    pub fn color(&self) -> (c: Color)
        ensures
            c == self.mover(),
    {
        match self {
            Move::Play(color, _) => *color,
            Move::Pass(color) => *color,
        }
    }

    pub fn is_pass(&self) -> (b: bool)
        ensures
            b == (self is Pass),
    {
        match self {
            Move::Play(_, _) => false,
            Move::Pass(_) => true,
        }
    }

    /// The point on which the move puts a stone. A pass has none.
    pub fn coord(&self) -> (c: Coord)
        requires
            self is Play,
        ensures
            *self == Move::Play(self.mover(), c),
    {
        match self {
            Move::Play(_, point) => *point,
            Move::Pass(_) => Coord { col: 0, row: 0 },
        }
    }

    /// The move that a colour word and a vertex name, where they name one.
    pub fn from_gtp(gtp_color: &str, gtp_vertex: &str) -> (r: Option<Move>)
        ensures
            r == Move::named(gtp_color@, gtp_vertex@),
    {
        Move::parse(&chars_of(gtp_color), &chars_of(gtp_vertex))
    }

    /// The move that a colour word and a vertex name, where they name one.
    pub fn parse(color: &Vec<char>, place: &Vec<char>) -> (r: Option<Move>)
        ensures
            r == Move::named(color@, place@),
    {
        match Color::parse(color) {
            None => None,
            Some(c) => {
                let pass = vec!['p', 'a', 's', 's'];
                if reads_as(place, &pass) {
                    Some(Move::Pass(c))
                } else {
                    match Coord::parse(place) {
                        Some(point) => Some(Move::Play(c, point)),
                        None => None,
                    }
                }
            },
        }
    }

    /// The vertex of the move: `pass`, or the vertex of its point. A point
    /// has a vertex if its column has a letter.
    pub fn to_gtp(&self) -> (s: String)
        requires
            self matches Move::Play(_, point) ==> 1 <= point.col <= 25,
        ensures
            s@ == self.gtp(),
    {
        match self {
            Move::Play(_, point) => point.to_gtp(),
            Move::Pass(_) => {
                let mut s: String = String::new();
                s.push('p');
                s.push('a');
                s.push('s');
                s.push('s');
                s
            },
        }
    }
}

} // verus!
