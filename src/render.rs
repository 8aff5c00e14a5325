//! What each screen cell of the board shows: a snapshot of the position in
//! plain values, and the glyph and colour theme painted for every square.
use owlchess::board::Board;
use vstd::prelude::*;
use crate::engine::{
    board_cell, cell_at, color_in, color_of, piece_in, piece_of, side_of, side_to_move,
};
use crate::geometry::{engine_index, engine_square, square_at, square_index};
use crate::types::{BoardColor, PieceKind};

verus! {

/// The contents of one square.
#[derive(Debug, Clone, Copy, PartialEq, Eq, Structural)]
pub struct Square {
    pub piece: Option<PieceKind>,
    pub color: Option<BoardColor>,
}

/// A position read out of the engine: the 64 squares, a1 first, and the side
/// to move.
pub struct BoardView {
    pub squares: Vec<Square>,
    pub side: BoardColor,
}

/// Square `s` (0 is a1) of `b`, as the engine reads it.
pub open spec fn square_of(b: Board, s: int) -> Square {
    Square {
        piece: piece_in(board_cell(b, engine_square(s))),
        color: color_in(board_cell(b, engine_square(s))),
    }
}

/// The four colour combinations of a board cell: cell shade, then piece
/// colour.
#[derive(Debug, Clone, Copy, PartialEq, Eq, Structural)]
pub enum Theme {
    WhiteCellWhitePiece,
    WhiteCellBlackPiece,
    BlackCellWhitePiece,
    BlackCellBlackPiece,
}

/// What one cell of the board shows.
#[derive(Debug, Clone, Copy, PartialEq, Eq, Structural)]
pub struct CellPaint {
    pub glyph: char,
    pub theme: Theme,
}

/// The glyph of a piece kind, the same for both colours; a space for an
/// empty square.
pub open spec fn glyph_of(p: Option<PieceKind>) -> char {
    match p {
        None => ' ',
        Some(PieceKind::Pawn) => '♟',
        Some(PieceKind::Knight) => '♞',
        Some(PieceKind::Bishop) => '♝',
        Some(PieceKind::Rook) => '♜',
        Some(PieceKind::Queen) => '♛',
        Some(PieceKind::King) => '♚',
    }
}

/// Whether the screen cell at `row`, `col` has the light shade.
pub open spec fn is_light_cell(row: int, col: int) -> bool {
    (row + col) % 2 == 0
}

/// The theme of a cell of the given shade holding a piece of colour `c`.
pub open spec fn theme_of(light: bool, c: BoardColor) -> Theme {
    match (light, c) {
        (true, BoardColor::White) => Theme::WhiteCellWhitePiece,
        (true, BoardColor::Black) => Theme::WhiteCellBlackPiece,
        (false, BoardColor::White) => Theme::BlackCellWhitePiece,
        (false, BoardColor::Black) => Theme::BlackCellBlackPiece,
    }
}

/// What the screen cell at `row`, `col` shows when it holds square `sq`; an
/// empty square is painted as if it held a white piece.
pub open spec fn paint_of(sq: Square, row: int, col: int) -> CellPaint {
    CellPaint {
        glyph: glyph_of(sq.piece),
        theme: theme_of(
            is_light_cell(row, col),
            match sq.color {
                Some(c) => c,
                None => BoardColor::White,
            },
        ),
    }
}

/// The glyph drawn for a piece kind, or for an empty square.
pub fn glyph(p: Option<PieceKind>) -> (r: char)
    ensures
        r == glyph_of(p),
{
    match p {
        None => ' ',
        Some(PieceKind::Pawn) => '♟',
        Some(PieceKind::Knight) => '♞',
        Some(PieceKind::Bishop) => '♝',
        Some(PieceKind::Rook) => '♜',
        Some(PieceKind::Queen) => '♛',
        Some(PieceKind::King) => '♚',
    }
}

/// The theme of a cell of the given shade holding a piece of colour `c`.
pub fn theme(light: bool, c: BoardColor) -> (r: Theme)
    ensures
        r == theme_of(light, c),
{
    match (light, c) {
        (true, BoardColor::White) => Theme::WhiteCellWhitePiece,
        (true, BoardColor::Black) => Theme::WhiteCellBlackPiece,
        (false, BoardColor::White) => Theme::BlackCellWhitePiece,
        (false, BoardColor::Black) => Theme::BlackCellBlackPiece,
    }
}

impl BoardView {
    /// The view holds one entry per square.
    pub open spec fn wf(&self) -> bool {
        self.squares@.len() == 64
    }

    /// Whether this view holds what the engine reads from `b`: square `s`
    /// (0 is a1) and the side to move.
    pub open spec fn reads(&self, b: Board) -> bool {
        &&& self.side == side_of(b)
        &&& forall|s: int| 0 <= s < 64 ==> #[trigger] self.squares@[s] == square_of(b, s)
    }

    /// Reads every square and the side to move out of `b`.
    pub fn of_board(b: &Board) -> (r: BoardView)
        ensures
            r.wf(),
            r.reads(*b),
    {
        let mut squares: Vec<Square> = Vec::new();
        let mut s: usize = 0;
        while s < 64
            invariant
                s <= 64,
                squares@.len() == s,
                forall|j: int| 0 <= j < s ==> #[trigger] squares@[j] == square_of(*b, j),
            decreases 64 - s,
        {
            let cell = cell_at(b, engine_index(s));
            squares.push(Square { piece: piece_of(cell), color: color_of(cell) });
            s = s + 1;
        }
        let side = side_to_move(b);
        BoardView { squares, side }
    }

    /// The contents of square `s` (0 is a1, 63 is h8).
    pub fn square(&self, s: usize) -> (r: Square)
        requires
            self.wf(),
            s < 64,
        ensures
            r == self.squares@[s as int],
    {
        self.squares[s]
    }

    /// What the screen cell at `row`, `col` shows when the board is viewed
    /// from `side`.
    pub fn paint_cell(&self, row: usize, col: usize, side: BoardColor) -> (r: CellPaint)
        requires
            self.wf(),
            row < 8,
            col < 8,
        ensures
            r == paint_of(self.squares@[square_at(row as int, col as int, side)], row as int, col as int),
    {
        let sq = self.squares[square_index(row, col, side)];
        let light = (row + col) % 2 == 0;
        let c = match sq.color {
            Some(c) => c,
            None => BoardColor::White,
        };
        CellPaint { glyph: glyph(sq.piece), theme: theme(light, c) }
    }

    /// The whole board as seen from `side`: the paint of screen row `row`,
    /// column `col` at position `row * 8 + col`.
    pub fn paint(&self, side: BoardColor) -> (r: Vec<CellPaint>)
        requires
            self.wf(),
        ensures
            r@.len() == 64,
            forall|row: int, col: int|
                0 <= row < 8 && 0 <= col < 8 ==> #[trigger] r@[row * 8 + col] == paint_of(
                    self.squares@[square_at(row, col, side)],
                    row,
                    col,
                ),
    {
        let mut r: Vec<CellPaint> = Vec::new();
        let mut row: usize = 0;
        while row < 8
            invariant
                row <= 8,
                self.wf(),
                r@.len() == row * 8,
                forall|i: int, j: int|
                    0 <= i < row && 0 <= j < 8 ==> #[trigger] r@[i * 8 + j] == paint_of(
                        self.squares@[square_at(i, j, side)],
                        i,
                        j,
                    ),
            decreases 8 - row,
        {
            let mut col: usize = 0;
            while col < 8
                invariant
                    row < 8,
                    col <= 8,
                    self.wf(),
                    r@.len() == row * 8 + col,
                    forall|i: int, j: int|
                        0 <= i < row && 0 <= j < 8 ==> #[trigger] r@[i * 8 + j] == paint_of(
                            self.squares@[square_at(i, j, side)],
                            i,
                            j,
                        ),
                    forall|j: int|
                        0 <= j < col ==> #[trigger] r@[row * 8 + j] == paint_of(
                            self.squares@[square_at(row as int, j, side)],
                            row as int,
                            j,
                        ),
                decreases 8 - col,
            {
                r.push(self.paint_cell(row, col, side));
                col = col + 1;
            }
            row = row + 1;
        }
        r
    }
}

/// Whether a clock is drawn highlighted: only that of the side to move.
pub fn clock_highlighted(to_move: BoardColor, owner: BoardColor) -> (r: bool)
    ensures
        r == (to_move == owner),
{
    to_move == owner
}

/// A clock reading split into whole minutes and the seconds left over.
pub fn clock_parts(seconds: u64) -> (r: (u64, u64))
    ensures
        r.0 == seconds / 60,
        r.1 == seconds % 60,
        r.0 * 60 + r.1 == seconds,
        r.1 < 60,
{
    (seconds / 60, seconds % 60)
}

/// The owners of the clocks drawn at the top and at the bottom of the side
/// panel: the viewing side's own clock is at the bottom.
pub fn clock_order(side: BoardColor) -> (r: (BoardColor, BoardColor))
    ensures
        r.1 == side,
        r.0 != side,
{
    (side.opposite(), side)
}

} // verus!
