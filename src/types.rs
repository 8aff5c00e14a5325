use vstd::prelude::*;

verus! {

/// A side of the board: the colour of a set of pieces, the side to move, or
/// the side from which the board is viewed.
#[derive(Debug, Clone, Copy, PartialEq, Eq, Structural)]
pub enum BoardColor {
    White,
    Black,
}

impl BoardColor {
    /// The other side.
    pub fn opposite(self) -> (r: BoardColor)
        ensures
            r != self,
    {
        match self {
            BoardColor::White => BoardColor::Black,
            BoardColor::Black => BoardColor::White,
        }
    }
}

/// The kind of a chess piece, without its colour.
#[derive(Debug, Clone, Copy, PartialEq, Eq, Structural)]
pub enum PieceKind {
    Pawn,
    Knight,
    Bishop,
    Rook,
    Queen,
    King,
}

/// Seconds on a player's clock when a match starts.
pub const DEFAULT_CLOCK_SECONDS: u64 = 300;

/// One side of a match: who plays it and how much time is left to them.
pub struct Player {
    pub name: String,
    pub title: Option<String>,
    pub rate: u32,
    /// Remaining time, in whole seconds.
    pub clock: u64,
}

impl Player {
    /// A player with the given name, rating and title; an empty title means
    /// the player holds none. The clock starts at `DEFAULT_CLOCK_SECONDS`.
    pub fn new(name: &str, rate: u32, title: &str) -> (r: Player)
        ensures
            r.name@ == name@,
            r.rate == rate,
            r.clock == DEFAULT_CLOCK_SECONDS,
            title@.len() == 0 ==> r.title.is_none(),
            title@.len() != 0 ==> (r.title.is_some() && r.title.unwrap()@ == title@),
    {
        Player {
            name: name.to_owned(),
            title: if title.is_empty() { None } else { Some(title.to_owned()) },
            rate,
            clock: DEFAULT_CLOCK_SECONDS,
        }
    }
}

} // verus!
