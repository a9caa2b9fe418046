//! Points of the board.

use vstd::prelude::*;
use crate::text::{
    chars_of, decimal, is_canonical, is_digit, lemma_decimal_digits, lemma_digits_value_canonical,
    lower_char, parse_digits, push_decimal, read_digits, to_lower, to_upper, upper,
};

verus! {

/// A point of the board: column and row, both counted from 1.
#[derive(Clone, Copy, Debug, PartialEq, Eq, Hash, Structural)]
pub struct Coord {
    pub col: u8,
    pub row: u8,
}

/// The point at a column and a row, as a sequence of its own if it lies on
/// the board, and the empty sequence if not.
pub open spec fn on_board(col: int, row: int, board_size: u8) -> Seq<Coord> {
    if 1 <= col <= board_size && 1 <= row <= board_size {
        seq![Coord { col: col as u8, row: row as u8 }]
    } else {
        Seq::empty()
    }
}

/// The column that a letter names, in capitals or not: A to H are the
/// columns 1 to 8, J to Z the columns 9 to 25. There is no column I.
pub open spec fn letter_column(c: char) -> Option<u8> {
    let l = to_lower(c);
    if 'a' <= l <= 'h' {
        Some((l as int - 'a' as int + 1) as u8)
    } else if 'j' <= l <= 'z' {
        Some((l as int - 'a' as int) as u8)
    } else {
        None
    }
}

/// The capital letter that names a column from 1 to 25.
pub open spec fn column_letter(col: u8) -> char {
    if col <= 8 {
        (col + 64) as u8 as char
    } else {
        (col + 65) as u8 as char
    }
}

/// The point that a vertex names: a column letter, then the row in decimal
/// digits.
pub open spec fn vertex(s: Seq<char>) -> Option<Coord> {
    if s.len() == 0 {
        None
    } else {
        match (letter_column(s[0]), parse_digits(s.skip(1))) {
            (Some(col), Some(row)) => if row <= 255 {
                Some(Coord { col, row: row as u8 })
            } else {
                None
            },
            _ => None,
        }
    }
}

impl Coord {
    /// Whether the point lies on a board of the given size.
    pub open spec fn inside(self, board_size: u8) -> bool {
        1 <= self.col <= board_size && 1 <= self.row <= board_size
    }

    /// The position of the point when the board is laid out row by row.
    pub open spec fn index(self, board_size: u8) -> int {
        (self.col - 1) + (self.row - 1) * board_size
    }

    /// The point at a position of the board laid out row by row.
    pub open spec fn at_index(id: int, board_size: u8) -> Coord {
        Coord { col: (id % (board_size as int) + 1) as u8, row: (id / (board_size as int) + 1) as u8 }
    }

    /// The points next to this one along its row and its column that lie
    /// on the board: lower column first, then lower row, higher row, higher
    /// column.
    pub open spec fn adjacent(self, board_size: u8) -> Seq<Coord> {
        on_board(self.col - 1, self.row as int, board_size)
            + on_board(self.col as int, self.row - 1, board_size)
            + on_board(self.col as int, self.row + 1, board_size)
            + on_board(self.col + 1, self.row as int, board_size)
    }

    /// The points next to this one along its diagonals that lie on the
    /// board, ordered as `adjacent` orders its points.
    pub open spec fn diagonal(self, board_size: u8) -> Seq<Coord> {
        on_board(self.col - 1, self.row - 1, board_size)
            + on_board(self.col - 1, self.row + 1, board_size)
            + on_board(self.col + 1, self.row - 1, board_size)
            + on_board(self.col + 1, self.row + 1, board_size)
    }

    /// The vertex that names the point: the column letter, then the row.
    pub open spec fn gtp(self) -> Seq<char> {
        seq![column_letter(self.col)] + decimal(self.row as nat)
    }

    /// The point in words: the column, a comma and the row.
    pub open spec fn shown(self) -> Seq<char> {
        decimal(self.col as nat) + seq![',', ' '] + decimal(self.row as nat)
    }

    pub fn new(col: u8, row: u8) -> (c: Coord)
        ensures
            c == (Coord { col, row }),
    {
        Coord { col, row }
    }

    /// The point at position `id` of a board laid out row by row. The row
    /// of the result has to fit its type, hence the bound on `id`.
    pub fn from_index(id: usize, board_size: u8) -> (c: Coord)
        requires
            board_size > 0,
            id < 255 * board_size,
        ensures
            c == Coord::at_index(id as int, board_size),
            c.col == id % (board_size as usize) + 1,
            c.row == id / (board_size as usize) + 1,
            id < board_size * board_size ==> c.inside(board_size) && c.index(board_size) == id,
    {
        let n: usize = board_size as usize;
        assert(id / n < 255 && id % n < n && id == n * (id / n) + id % n) by (nonlinear_arith)
            requires
                0 < n,
                id < 255 * n,
        ;
        assert(id < n * n ==> id / n < n) by (nonlinear_arith)
            requires
                0 < n,
        ;
        let c = Coord { col: (id % n + 1) as u8, row: (id / n + 1) as u8 };
        assert(c.index(board_size) == id) by (nonlinear_arith)
            requires
                c.col == id % n + 1,
                c.row == id / n + 1,
                n == board_size,
                id == n * (id / n) + id % n,
        ;
        c
    }

    /// The points of the board next to this one along its row and column.
    pub fn neighbours(&self, board_size: u8) -> (v: Vec<Coord>)
        ensures
            v@ == self.adjacent(board_size),
    {
        let col: i16 = self.col as i16;
        let row: i16 = self.row as i16;
        let mut v: Vec<Coord> = Vec::new();
        push_on_board(&mut v, col - 1, row, board_size);
        push_on_board(&mut v, col, row - 1, board_size);
        push_on_board(&mut v, col, row + 1, board_size);
        push_on_board(&mut v, col + 1, row, board_size);
        v
    }

    /// The points of the board next to this one along its diagonals.
    pub fn diagonals(&self, board_size: u8) -> (v: Vec<Coord>)
        ensures
            v@ == self.diagonal(board_size),
    {
        let col: i16 = self.col as i16;
        let row: i16 = self.row as i16;
        let mut v: Vec<Coord> = Vec::new();
        push_on_board(&mut v, col - 1, row - 1, board_size);
        push_on_board(&mut v, col - 1, row + 1, board_size);
        push_on_board(&mut v, col + 1, row - 1, board_size);
        push_on_board(&mut v, col + 1, row + 1, board_size);
        v
    }

    /// The position of the point on a board laid out row by row. Columns
    /// and rows count from 1, so neither may be 0.
    pub fn to_index(&self, board_size: u8) -> (id: usize)
        requires
            self.col >= 1,
            self.row >= 1,
        ensures
            id == self.index(board_size),
            self.inside(board_size) ==> id < board_size * board_size,
    {
        let col: usize = self.col as usize;
        let row: usize = self.row as usize;
        let n: usize = board_size as usize;
        assert((row - 1) * n <= 254 * 255) by (nonlinear_arith)
            requires
                1 <= row <= 255,
                n <= 255,
        ;
        assert(self.inside(board_size) ==> (col - 1) + (row - 1) * n < n * n) by (nonlinear_arith)
            requires
                col == self.col,
                row == self.row,
                n == board_size,
        ;
        (col - 1) + (row - 1) * n
    }

    pub fn is_inside(&self, board_size: u8) -> (b: bool)
        ensures
            b == self.inside(board_size),
    {
        1 <= self.col && self.col <= board_size && 1 <= self.row && self.row <= board_size
    }

    /// The point that a vertex names, where it names one.
    pub fn parse(word: &Vec<char>) -> (r: Option<Coord>)
        ensures
            r == vertex(word@),
    {
        if word.len() == 0 {
            return None;
        }
        let l: char = lower_char(word[0]);
        let code: u32 = l as u32;
        let col: u8 = if 97 <= code && code <= 104 {
            (code - 96) as u8
        } else if 106 <= code && code <= 122 {
            (code - 97) as u8
        } else {
            return None;
        };
        match read_digits(word, 1, 255) {
            Some(row) => Some(Coord { col, row: row as u8 }),
            None => None,
        }
    }

    /// The point that a vertex names. Note: there is no I column.
    pub fn from_gtp(gtp_vertex: &str) -> (c: Coord)
        requires
            vertex(gtp_vertex@) is Some,
        ensures
            Some(c) == vertex(gtp_vertex@),
    {
        Coord::parse(&chars_of(gtp_vertex)).unwrap()
    }

    /// The vertex that names the point. Note: there is no I column. The
    /// columns that have a letter are 1 to 25.
    pub fn to_gtp(&self) -> (s: String)
        requires
            1 <= self.col <= 25,
        ensures
            s@ == self.gtp(),
            !s@.contains('I'),
    {
        let letter: char = if self.col <= 8 {
            (self.col + 64) as char
        } else {
            (self.col + 65) as char
        };
        let mut s: String = String::new();
        s.push(letter);
        push_decimal(&mut s, self.row as usize);
        proof {
            lemma_gtp_has_no_i(*self);
        }
        s
    }

    /// The point in words, for messages.
    pub fn show(&self) -> (s: String)
        ensures
            s@ == self.shown(),
    {
        let mut s: String = String::new();
        push_decimal(&mut s, self.col as usize);
        s.push(',');
        s.push(' ');
        push_decimal(&mut s, self.row as usize);
        s
    }
}

fn push_on_board(v: &mut Vec<Coord>, col: i16, row: i16, board_size: u8)
    ensures
        final(v)@ == old(v)@ + on_board(col as int, row as int, board_size),
{
    let n: i16 = board_size as i16;
    if 1 <= col && col <= n && 1 <= row && row <= n {
        v.push(Coord { col: col as u8, row: row as u8 });
    }
}

/// A point of the board and its position on the board laid out row by row
/// determine each other.
pub proof fn lemma_index_round_trip(c: Coord, board_size: u8)
    requires
        c.inside(board_size),
    ensures
        0 <= c.index(board_size) < board_size * board_size,
        Coord::at_index(c.index(board_size), board_size) == c,
{
    let n = board_size as int;
    let col = c.col as int;
    let row = c.row as int;
    let id = c.index(board_size);
    assert(0 <= id < n * n) by (nonlinear_arith)
        requires
            id == (col - 1) + (row - 1) * n,
            1 <= col <= n,
            1 <= row <= n,
    ;
    assert(id / n == row - 1 && id % n == col - 1) by (nonlinear_arith)
        requires
            id == (col - 1) + (row - 1) * n,
            1 <= col <= n,
            1 <= row <= n,
    ;
}

/// Every position of the board laid out row by row is that of a point of
/// the board, and of that point only.
pub proof fn lemma_at_index_inside(id: int, board_size: u8)
    requires
        0 <= id < board_size * board_size,
    ensures
        Coord::at_index(id, board_size).inside(board_size),
        Coord::at_index(id, board_size).index(board_size) == id,
{
    let n = board_size as int;
    assert(n > 0) by (nonlinear_arith)
        requires
            0 <= id < n * n,
            n >= 0,
    ;
    assert(0 <= id / n < n && 0 <= id % n < n && id == n * (id / n) + id % n) by (nonlinear_arith)
        requires
            0 <= id < n * n,
            n > 0,
    ;
    let c = Coord::at_index(id, board_size);
    assert(c.index(board_size) == id) by (nonlinear_arith)
        requires
            c.col == id % n + 1,
            c.row == id / n + 1,
            n == board_size,
            id == n * (id / n) + id % n,
    ;
}

/// The letter I never stands in the vertex of a point.
pub proof fn lemma_gtp_has_no_i(c: Coord)
    requires
        1 <= c.col <= 25,
    ensures
        !c.gtp().contains('I'),
{
    lemma_decimal_digits(c.row as nat);
}

/// A vertex names a point whose own vertex is the same text in capital
/// letters, as long as its row is written without leading zeros.
pub proof fn lemma_vertex_round_trip(v: Seq<char>)
    requires
        vertex(v) is Some,
        is_canonical(v.skip(1)),
    ensures
        1 <= vertex(v)->0.col <= 25,
        vertex(v)->0.gtp() == upper(v),
{
    lemma_digits_value_canonical(v.skip(1));
}

/// The vertex of a point names that point.
pub proof fn lemma_gtp_names_point(c: Coord)
    requires
        1 <= c.col <= 25,
    ensures
        vertex(c.gtp()) == Some(c),
{
    lemma_decimal_digits(c.row as nat);
    let s = c.gtp();
    assert(s.skip(1) =~= decimal(c.row as nat));
}

} // verus!
