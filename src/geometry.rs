//! Where squares appear on screen. Squares are numbered 0..64 rank by rank
//! from a1 (0) to h8 (63); the screen shows the board as 8 rows of 8 columns,
//! row 0 at the top. The viewing side decides which edge is at the bottom.
use vstd::prelude::*;
use crate::types::BoardColor;

verus! {

/// The rank (0 for rank 1) of square `s`.
pub open spec fn rank_of(s: int) -> int {
    s / 8
}

/// The file (0 for file a) of square `s`.
pub open spec fn file_of(s: int) -> int {
    s % 8
}

/// The square shown at screen `row` and `col` when the board is viewed from
/// `side`: from white, rank 8 is at the top and file a at the left; from
/// black, both are mirrored.
pub open spec fn square_at(row: int, col: int, side: BoardColor) -> int {
    match side {
        BoardColor::White => (7 - row) * 8 + col,
        BoardColor::Black => row * 8 + (7 - col),
    }
}

/// The screen row and column at which square `s` is shown when the board is
/// viewed from `side`.
pub open spec fn cell_of(s: int, side: BoardColor) -> (int, int) {
    match side {
        BoardColor::White => (7 - rank_of(s), file_of(s)),
        BoardColor::Black => (rank_of(s), 7 - file_of(s)),
    }
}

/// The engine's number for square `s`: rank 8 first, file a first in a rank.
pub open spec fn engine_square(s: int) -> int {
    (7 - rank_of(s)) * 8 + file_of(s)
}

/// The rank number (1 to 8) written beside screen `row`.
pub open spec fn rank_label_of(row: int, side: BoardColor) -> int {
    match side {
        BoardColor::White => 8 - row,
        BoardColor::Black => row + 1,
    }
}

/// The file letters in order, a to h.
pub open spec fn file_letters() -> Seq<char> {
    seq!['a', 'b', 'c', 'd', 'e', 'f', 'g', 'h']
}

/// The file letter written under screen column `col`.
pub open spec fn file_label_of(col: int, side: BoardColor) -> char {
    match side {
        BoardColor::White => file_letters()[col],
        BoardColor::Black => file_letters()[7 - col],
    }
}

/// The square shown at screen `row` and `col` when the board is viewed from
/// `side`.
pub fn square_index(row: usize, col: usize, side: BoardColor) -> (r: usize)
    requires
        row < 8,
        col < 8,
    ensures
        r == square_at(row as int, col as int, side),
        r < 64,
{
    match side {
        BoardColor::White => (7 - row) * 8 + col,
        BoardColor::Black => row * 8 + (7 - col),
    }
}

/// The screen row and column of square `s` when the board is viewed from
/// `side`.
pub fn cell_of_square(s: usize, side: BoardColor) -> (r: (usize, usize))
    requires
        s < 64,
    ensures
        r.0 as int == cell_of(s as int, side).0,
        r.1 as int == cell_of(s as int, side).1,
        r.0 < 8,
        r.1 < 8,
{
    match side {
        BoardColor::White => (7 - s / 8, s % 8),
        BoardColor::Black => (s / 8, 7 - s % 8),
    }
}

/// The engine's number for square `s`.
pub fn engine_index(s: usize) -> (r: usize)
    requires
        s < 64,
    ensures
        r == engine_square(s as int),
        r < 64,
{
    (7 - s / 8) * 8 + s % 8
}

/// The rank number written beside screen `row`.
pub fn rank_label(row: usize, side: BoardColor) -> (r: u8)
    requires
        row < 8,
    ensures
        r == rank_label_of(row as int, side),
        1 <= r <= 8,
{
    match side {
        BoardColor::White => (8 - row) as u8,
        BoardColor::Black => (row + 1) as u8,
    }
}

/// The file letter written under screen column `col`.
pub fn file_label(col: usize, side: BoardColor) -> (r: char)
    requires
        col < 8,
    ensures
        r == file_label_of(col as int, side),
{
    let letters: [char; 8] = ['a', 'b', 'c', 'd', 'e', 'f', 'g', 'h'];
    proof {
        assert(letters@ =~= file_letters());
    }
    match side {
        BoardColor::White => letters[col],
        BoardColor::Black => letters[7 - col],
    }
}

/// The line written under the board: the file letters in screen order,
/// separated by single spaces.
pub fn file_hint(side: BoardColor) -> (r: Vec<char>)
    ensures
        r@.len() == 15,
        forall|i: int| 0 <= i < 8 ==> #[trigger] r@[2 * i] == file_label_of(i, side),
        forall|i: int| 0 <= i < 7 ==> #[trigger] r@[2 * i + 1] == ' ',
{
    let mut r: Vec<char> = Vec::new();
    let mut col: usize = 0;
    while col < 8
        invariant
            col <= 8,
            r@.len() == if col == 0 { 0 } else { 2 * col - 1 },
            forall|i: int| 0 <= i < col ==> #[trigger] r@[2 * i] == file_label_of(i, side),
            forall|i: int| 0 <= i < col - 1 ==> #[trigger] r@[2 * i + 1] == ' ',
        decreases 8 - col,
    {
        if col > 0 {
            r.push(' ');
        }
        r.push(file_label(col, side));
        col = col + 1;
    }
    r
}

/// Viewing the board from either side, the square shown at a screen cell is
/// shown at that same cell: the mapping from cells to squares and back is the
/// identity.
pub proof fn lemma_cell_square_round_trip(row: int, col: int, side: BoardColor)
    requires
        0 <= row < 8,
        0 <= col < 8,
    ensures
        0 <= square_at(row, col, side) < 64,
        cell_of(square_at(row, col, side), side) == (row, col),
{
}

/// Viewing the board from either side, each square is shown at exactly one
/// cell, and that cell shows it back.
pub proof fn lemma_square_cell_round_trip(s: int, side: BoardColor)
    requires
        0 <= s < 64,
    ensures
        0 <= cell_of(s, side).0 < 8,
        0 <= cell_of(s, side).1 < 8,
        square_at(cell_of(s, side).0, cell_of(s, side).1, side) == s,
{
}

/// Viewed from white, screen row `row` shows rank `8 - row` and column `col`
/// shows file `col`; viewed from black, every cell shows the square opposite
/// through the board's centre.
pub proof fn lemma_orientation_mirror(row: int, col: int)
    requires
        0 <= row < 8,
        0 <= col < 8,
    ensures
        square_at(row, col, BoardColor::White) == (7 - row) * 8 + col,
        rank_of(square_at(row, col, BoardColor::White)) == 7 - row,
        file_of(square_at(row, col, BoardColor::White)) == col,
        square_at(row, col, BoardColor::Black) == 63 - square_at(row, col, BoardColor::White),
{
}

} // verus!
