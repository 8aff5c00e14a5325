//! The chess rules engine, reached through the `owlchess` crate: the board
//! value, moves, and the few queries that the match logic makes of them.
use owlchess::board::Board;
use owlchess::moves::ValidateError;
use owlchess::moves::san::ParseError;
use owlchess::{Cell, Color, Coord, Move, Piece};
use vstd::prelude::*;
use crate::geometry::engine_square;
use crate::types::{BoardColor, PieceKind};

verus! {

/// A legal chess position of the engine; opaque to the proofs.
#[verifier::external_type_specification]
#[verifier::external_body]
pub struct ExBoard(Board);

/// A legal move of the engine; opaque to the proofs.
#[verifier::external_type_specification]
#[verifier::external_body]
pub struct ExMove(Move);

/// The contents of one square of the engine's board; opaque to the proofs.
#[verifier::external_type_specification]
#[verifier::external_body]
pub struct ExCell(Cell);

/// Why a SAN text gave no legal move.
#[verifier::external_type_specification]
#[verifier::external_body]
pub struct ExParseError(ParseError);

/// Why a move could not be made on a board.
#[verifier::external_type_specification]
#[verifier::external_body]
pub struct ExValidateError(ValidateError);

/// What `Board::initial` returns; it takes nothing, so the parameter is
/// only a placeholder.
pub uninterp spec fn start_position(v: ()) -> Board;

/// What `Board::get` returns for engine square `i` of `b`.
pub uninterp spec fn board_cell(b: Board, i: int) -> Cell;

/// What `Cell::piece` returns for `c`.
pub uninterp spec fn piece_in(c: Cell) -> Option<PieceKind>;

/// What `Cell::color` returns for `c`.
pub uninterp spec fn color_in(c: Cell) -> Option<BoardColor>;

/// What `Board::side` returns for `b`: the side to move.
pub uninterp spec fn side_of(b: Board) -> BoardColor;

/// What `Move::from_san` gives for text `s` in `b`: the legal move that the
/// text names, or none where it names none.
pub uninterp spec fn san_move(b: Board, s: Seq<char>) -> Option<Move>;

/// What `Board::make_move` gives for `m` in `b`: the next position, or none
/// where it refuses the move.
pub uninterp spec fn after_move(b: Board, m: Move) -> Option<Board>;

/// The piece kind on square `s` (0 is a1) in the starting position.
pub open spec fn start_piece(s: int) -> Option<PieceKind> {
    let rank = s / 8;
    let file = s % 8;
    if rank == 1 || rank == 6 {
        Some(PieceKind::Pawn)
    } else if rank == 0 || rank == 7 {
        if file == 0 || file == 7 {
            Some(PieceKind::Rook)
        } else if file == 1 || file == 6 {
            Some(PieceKind::Knight)
        } else if file == 2 || file == 5 {
            Some(PieceKind::Bishop)
        } else if file == 3 {
            Some(PieceKind::Queen)
        } else {
            Some(PieceKind::King)
        }
    } else {
        None
    }
}

/// The colour of the piece on square `s` in the starting position.
pub open spec fn start_color(s: int) -> Option<BoardColor> {
    let rank = s / 8;
    if rank <= 1 {
        Some(BoardColor::White)
    } else if rank >= 6 {
        Some(BoardColor::Black)
    } else {
        None
    }
}

/// Whether the piece kind and colour on square `s` of `b` are those of the
/// starting position, with `b` read through the engine.
pub open spec fn holds_start_square(b: Board, s: int) -> bool {
    &&& piece_in(board_cell(b, engine_square(s))) == start_piece(s)
    &&& color_in(board_cell(b, engine_square(s))) == start_color(s)
}

/// Whether `c` is a piece letter of SAN.
pub open spec fn is_piece_letter(c: char) -> bool {
    c == 'N' || c == 'B' || c == 'R' || c == 'Q' || c == 'K'
}

/// A SAN text without its trailing check or capture mark: one `#` or `x`,
/// or one or two `+`.
pub open spec fn san_body(s: Seq<char>) -> Seq<char> {
    if s.len() > 0 && (s.last() == '#' || s.last() == 'x') {
        s.drop_last()
    } else if s.len() > 0 && s.last() == '+' {
        if s.len() > 1 && s[s.len() - 2] == '+' {
            s.drop_last().drop_last()
        } else {
            s.drop_last()
        }
    } else {
        s
    }
}

/// The texts that `Move::from_san` reads without panicking: ASCII only, and
/// a piece move keeps at least a destination square after its letter.
pub open spec fn san_readable(s: Seq<char>) -> bool {
    &&& forall|i: int| 0 <= i < s.len() ==> (#[trigger] s[i] as u32) < 128
    &&& (san_body(s).len() > 0 && is_piece_letter(san_body(s)[0])) ==> san_body(s).len() >= 3
}

/// Whether `Move::from_san` can be handed the text `t`.
pub fn is_san_readable(t: &Vec<char>) -> (r: bool)
    ensures
        r == san_readable(t@),
{
    let mut i: usize = 0;
    while i < t.len()
        invariant
            i <= t.len(),
            forall|j: int| 0 <= j < i ==> (#[trigger] t@[j] as u32) < 128,
        decreases t.len() - i,
    {
        if (t[i] as u32) >= 128 {
            return false;
        }
        i = i + 1;
    }
    let n = t.len();
    let mut body_len: usize = n;
    if n > 0 && (t[n - 1] == '#' || t[n - 1] == 'x') {
        body_len = n - 1;
    } else if n > 0 && t[n - 1] == '+' {
        if n > 1 && t[n - 2] == '+' {
            body_len = n - 2;
        } else {
            body_len = n - 1;
        }
    }
    proof {
        assert(san_body(t@) =~= t@.subrange(0, body_len as int));
    }
    if body_len > 0 {
        let c = t[0];
        if (c == 'N' || c == 'B' || c == 'R' || c == 'Q' || c == 'K') && body_len < 3 {
            return false;
        }
    }
    true
}

/// Relies on owlchess's `Board::initial`: the standard starting position.
#[verifier::external_body]
pub(crate) fn initial_board() -> (r: Board)
    ensures
        r == start_position(()),
        side_of(r) == BoardColor::White,
        forall|s: int| 0 <= s < 64 ==> #[trigger] holds_start_square(r, s),
{
    Board::initial()
}

/// Relies on owlchess's `Board::side`: the colour whose turn it is.
#[verifier::external_body]
pub(crate) fn side_to_move(b: &Board) -> (r: BoardColor)
    ensures
        r == side_of(*b),
{
    match b.side() {
        Color::White => BoardColor::White,
        Color::Black => BoardColor::Black,
    }
}

/// Relies on owlchess's `Board::get`, with the square given through
/// `Coord::from_index`: the contents of the square with engine index `i`
/// (rank 8 first, file a first within a rank). `from_index` panics from 64 on.
#[verifier::external_body]
pub(crate) fn cell_at(b: &Board, i: usize) -> (r: Cell)
    requires
        i < 64,
    ensures
        r == board_cell(*b, i as int),
{
    b.get(Coord::from_index(i))
}

/// Relies on owlchess's `Cell::piece`: the kind of piece in `c`, if any.
#[verifier::external_body]
pub(crate) fn piece_of(c: Cell) -> (r: Option<PieceKind>)
    ensures
        r == piece_in(c),
{
    match c.piece() {
        None => None,
        Some(Piece::Pawn) => Some(PieceKind::Pawn),
        Some(Piece::Knight) => Some(PieceKind::Knight),
        Some(Piece::Bishop) => Some(PieceKind::Bishop),
        Some(Piece::Rook) => Some(PieceKind::Rook),
        Some(Piece::Queen) => Some(PieceKind::Queen),
        Some(Piece::King) => Some(PieceKind::King),
    }
}

/// Relies on owlchess's `Cell::color`: the colour of the piece in `c`, if
/// any.
#[verifier::external_body]
pub(crate) fn color_of(c: Cell) -> (r: Option<BoardColor>)
    ensures
        r == color_in(c),
{
    match c.color() {
        None => None,
        Some(Color::White) => Some(BoardColor::White),
        Some(Color::Black) => Some(BoardColor::Black),
    }
}

/// Relies on owlchess's `Move::from_san`: the legal move that the SAN text
/// `s` names in position `b`, or why there is none. It panics on some texts
/// that are not ASCII or that name a piece and too little else, which
/// `san_readable` leaves out.
#[verifier::external_body]
pub(crate) fn parse_san(s: &str, b: &Board) -> (r: Result<Move, ParseError>)
    requires
        san_readable(s@),
    ensures
        r.is_ok() == san_move(*b, s@).is_some(),
        r.is_ok() ==> r.unwrap() == san_move(*b, s@).unwrap(),
{
    Move::from_san(s, b)
}

/// Relies on owlchess's `Board::make_move`: the position after `m`, or why
/// `m` cannot be made in `b`.
#[verifier::external_body]
pub(crate) fn apply_move(b: &Board, m: Move) -> (r: Result<Board, ValidateError>)
    ensures
        r.is_ok() == after_move(*b, m).is_some(),
        r.is_ok() ==> r.unwrap() == after_move(*b, m).unwrap(),
{
    b.make_move(m)
}

} // verus!
