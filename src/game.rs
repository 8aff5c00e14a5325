//! The state of one match on screen, and how ticks and keystrokes change it.
use owlchess::board::Board;
use vstd::prelude::*;
use crate::clock::{tick_clocks, tick_spec, ClockState};
use crate::editor::{
    after_append, after_backspace, alphanumeric, string_of_chars, InputBuffer,
};
use crate::engine::{
    after_move, apply_move, holds_start_square, initial_board, is_san_readable, parse_san,
    san_move, san_readable, side_of, side_to_move, start_position,
};
use crate::render::BoardView;
use crate::types::{BoardColor, Player, DEFAULT_CLOCK_SECONDS};

verus! {

/// Why a submitted move text changed nothing.
#[derive(Debug, Clone, Copy, PartialEq, Eq, Structural)]
pub enum MoveRejection {
    /// The text names no legal move in the position.
    Unparsed,
    /// The move could not be made in the position.
    Illegal,
}

/// A keystroke, as the match sees it.
#[derive(Debug, Clone, Copy, PartialEq, Eq, Structural)]
pub enum Key {
    Char(char),
    Backspace,
    Other,
}

/// What submitting text `t` in position `b` comes to: the engine's next
/// position where the text names a legal move that can be made, `Unparsed`
/// where it names none (or cannot be read as SAN at all), `Illegal` where the
/// move is refused.
pub open spec fn submission_outcome(b: Board, t: Seq<char>) -> Result<Board, MoveRejection> {
    if !san_readable(t) {
        Err(MoveRejection::Unparsed)
    } else {
        match san_move(b, t) {
            None => Err(MoveRejection::Unparsed),
            Some(m) => match after_move(b, m) {
                Some(nb) => Ok(nb),
                None => Err(MoveRejection::Illegal),
            },
        }
    }
}

/// The value returned for a submission settled with `outcome`.
pub open spec fn outcome_result(outcome: Result<Board, MoveRejection>) -> Result<(), MoveRejection> {
    match outcome {
        Ok(_) => Ok(()),
        Err(e) => Err(e),
    }
}

/// The status line shown after text `t` was submitted and named no move.
pub open spec fn invalid_move_message(t: Seq<char>) -> Seq<char> {
    t + " is not a valid move!"@
}

/// The match: the position, the side the board is viewed from, both players
/// with their clocks, the move being typed and the status line.
pub struct LichessApp {
    pub input_buffer: InputBuffer,
    pub player_side: BoardColor,
    pub board: Board,
    pub board_message: String,
    /// White, then black.
    pub players: (Player, Player),
    /// When the clocks last lost a second, in milliseconds on the caller's
    /// time line.
    pub last_tick_ms: u64,
}

impl LichessApp {
    pub open spec fn wf(&self) -> bool {
        self.input_buffer.wf()
    }

    /// The clocks and the time of the last counted tick.
    pub open spec fn clocks(&self) -> ClockState {
        ClockState {
            white: self.players.0.clock,
            black: self.players.1.clock,
            last_tick_ms: self.last_tick_ms,
        }
    }

    /// Both players' names, ratings and titles are as in `o`.
    pub open spec fn same_players(&self, o: &LichessApp) -> bool {
        &&& self.players.0.name@ == o.players.0.name@
        &&& self.players.1.name@ == o.players.1.name@
        &&& self.players.0.rate == o.players.0.rate
        &&& self.players.1.rate == o.players.1.rate
        &&& self.players.0.title == o.players.0.title
        &&& self.players.1.title == o.players.1.title
    }

    /// Everything but the clocks and the typed text is as in `o`.
    pub open spec fn same_but_clocks_and_buffer(&self, o: &LichessApp) -> bool {
        &&& self.player_side == o.player_side
        &&& self.board == o.board
        &&& self.board_message@ == o.board_message@
        &&& self.same_players(o)
    }

    /// Everything but the clocks is as in `o`.
    pub open spec fn same_but_clocks(&self, o: &LichessApp) -> bool {
        &&& self.input_buffer.chars@ == o.input_buffer.chars@
        &&& self.same_but_clocks_and_buffer(o)
    }

    /// The clocks, the view side and the players are as in `o`.
    pub open spec fn same_match(&self, o: &LichessApp) -> bool {
        &&& self.clocks() == o.clocks()
        &&& self.player_side == o.player_side
        &&& self.same_players(o)
    }

    /// The state after the text typed in `o` was settled with `outcome`:
    /// only the board, the status line and the buffer may differ from `o`.
    pub open spec fn settled(&self, o: &LichessApp, outcome: Result<Board, MoveRejection>) -> bool {
        &&& self.wf()
        &&& self.same_match(o)
        &&& self.input_buffer.chars@ == Seq::<char>::empty()
        &&& match outcome {
            Ok(b) => self.board == b && self.board_message@ == Seq::<char>::empty(),
            Err(MoveRejection::Unparsed) => self.board == o.board && self.board_message@
                == invalid_move_message(o.input_buffer.chars@),
            Err(MoveRejection::Illegal) => self.board == o.board && self.board_message@
                == Seq::<char>::empty(),
        }
    }

    /// A match from the initial position, viewed from white, between "huy"
    /// (white, rated 2400, no title) and "huygm" (black, rated 3000, title
    /// "GM"), with both clocks full and the time line starting at zero.
    pub fn new() -> (r: LichessApp)
        ensures
            r.wf(),
            r.input_buffer.chars@ == Seq::<char>::empty(),
            r.board_message@ == Seq::<char>::empty(),
            r.player_side == BoardColor::White,
            r.board == start_position(()),
            side_of(r.board) == BoardColor::White,
            forall|s: int| 0 <= s < 64 ==> #[trigger] holds_start_square(r.board, s),
            r.players.0.name@ == "huy"@,
            r.players.0.rate == 2400,
            r.players.0.title.is_none(),
            r.players.1.name@ == "huygm"@,
            r.players.1.rate == 3000,
            r.players.1.title.is_some() && r.players.1.title.unwrap()@ == "GM"@,
            r.clocks() == (ClockState {
                white: DEFAULT_CLOCK_SECONDS,
                black: DEFAULT_CLOCK_SECONDS,
                last_tick_ms: 0,
            }),
    {
        proof {
            reveal_strlit("");
            reveal_strlit("GM");
        }
        LichessApp {
            input_buffer: InputBuffer::new(),
            player_side: BoardColor::White,
            board: initial_board(),
            board_message: String::new(),
            players: (Player::new("huy", 2400, ""), Player::new("huygm", 3000, "GM")),
            last_tick_ms: 0,
        }
    }

    /// A tick at time `now_ms` with `to_move` on move: the clocks advance as
    /// `tick_spec` says, and nothing else changes.
    pub fn advance_clock(&mut self, now_ms: u64, to_move: BoardColor)
        ensures
            final(self).clocks() == tick_spec(old(self).clocks(), now_ms, to_move),
            final(self).same_but_clocks(old(self)),
            final(self).wf() == old(self).wf(),
    {
        let s = ClockState {
            white: self.players.0.clock,
            black: self.players.1.clock,
            last_tick_ms: self.last_tick_ms,
        };
        let t = tick_clocks(s, now_ms, to_move);
        self.players.0.clock = t.white;
        self.players.1.clock = t.black;
        self.last_tick_ms = t.last_tick_ms;
    }

    /// A tick at time `now_ms`: the clock of the side to move in the current
    /// position loses a second if one has passed since the last counted tick.
    pub fn update(&mut self, now_ms: u64)
        ensures
            final(self).clocks() == tick_spec(old(self).clocks(), now_ms, side_of(old(self).board)),
            final(self).same_but_clocks(old(self)),
            final(self).wf() == old(self).wf(),
    {
        let to_move = side_to_move(&self.board);
        self.advance_clock(now_ms, to_move);
    }

    /// The side to move in the current position.
    pub fn side_to_move(&self) -> (r: BoardColor)
        ensures
            r == side_of(self.board),
    {
        side_to_move(&self.board)
    }

    /// Settles a submitted move text, given what the rules engine made of
    /// it: on `Ok` the new position replaces the old one. The buffer is
    /// emptied; the status line names the text if it named no move, and is
    /// empty otherwise.
    pub fn resolve_submission(&mut self, outcome: Result<Board, MoveRejection>) -> (r: Result<
        (),
        MoveRejection,
    >)
        requires
            old(self).wf(),
        ensures
            final(self).settled(old(self), outcome),
            r == outcome_result(outcome),
    {
        let r = match outcome {
            Ok(b) => {
                self.board = b;
                self.board_message = String::new();
                Ok(())
            },
            Err(MoveRejection::Unparsed) => {
                let text = string_of_chars(&self.input_buffer.chars);
                self.board_message = text.concat(" is not a valid move!");
                Err(MoveRejection::Unparsed)
            },
            Err(MoveRejection::Illegal) => {
                self.board_message = String::new();
                Err(MoveRejection::Illegal)
            },
        };
        self.input_buffer.clear();
        r
    }

    /// Submits the typed text as a move in the current position, as
    /// `submission_outcome` says. The buffer is emptied whatever the outcome;
    /// a text that names no move leaves the position as it was and says so
    /// on the status line.
    pub fn submit(&mut self) -> (r: Result<(), MoveRejection>)
        requires
            old(self).wf(),
        ensures
            final(self).settled(
                old(self),
                submission_outcome(old(self).board, old(self).input_buffer.chars@),
            ),
            r == outcome_result(submission_outcome(old(self).board, old(self).input_buffer.chars@)),
    {
        let outcome = if is_san_readable(&self.input_buffer.chars) {
            let text = string_of_chars(&self.input_buffer.chars);
            match parse_san(text.as_str(), &self.board) {
                Ok(m) => match apply_move(&self.board, m) {
                    Ok(b) => Ok(b),
                    Err(_) => Err(MoveRejection::Illegal),
                },
                Err(_) => Err(MoveRejection::Unparsed),
            }
        } else {
            Err(MoveRejection::Unparsed)
        };
        self.resolve_submission(outcome)
    }

    /// Handles one keystroke: a newline submits the typed move, backspace
    /// deletes the last character, a letter or digit is typed if there is
    /// room, and every other key is ignored. The match always goes on.
    pub fn input(&mut self, key: Key) -> (r: bool)
        requires
            old(self).wf(),
        ensures
            r,
            final(self).wf(),
            final(self).same_match(old(self)),
            match key {
                Key::Char('\n') => final(self).settled(
                    old(self),
                    submission_outcome(old(self).board, old(self).input_buffer.chars@),
                ),
                Key::Char(c) => {
                    &&& final(self).same_but_clocks_and_buffer(old(self))
                    &&& final(self).input_buffer.chars@ == after_append(
                        old(self).input_buffer.chars@,
                        c,
                        alphanumeric(c),
                    )
                },
                Key::Backspace => {
                    &&& final(self).same_but_clocks_and_buffer(old(self))
                    &&& final(self).input_buffer.chars@ == after_backspace(
                        old(self).input_buffer.chars@,
                    )
                },
                Key::Other => final(self).same_but_clocks(old(self)),
            },
    {
        match key {
            Key::Char('\n') => {
                let _ = self.submit();
            },
            Key::Char(c) => {
                let _ = self.input_buffer.push_key(c);
            },
            Key::Backspace => {
                self.input_buffer.backspace();
            },
            Key::Other => {},
        }
        true
    }

    /// The current position in plain values.
    pub fn view(&self) -> (r: BoardView)
        ensures
            r.wf(),
            r.reads(self.board),
    {
        BoardView::of_board(&self.board)
    }
}

} // verus!
