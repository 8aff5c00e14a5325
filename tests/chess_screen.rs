use lichess_tui::engine::is_san_readable;
use lichess_tui::clock::{tick_clocks, ClockState};
use lichess_tui::editor::{InputBuffer, MAX_INPUT_BUFFER_SIZE};
use lichess_tui::game::{Key, LichessApp, MoveRejection};
use lichess_tui::geometry::{
    cell_of_square, engine_index, file_hint, file_label, rank_label, square_index,
};
use lichess_tui::render::{clock_highlighted, clock_order, clock_parts, glyph, CellPaint, Theme};
use lichess_tui::types::{BoardColor, PieceKind, Player, DEFAULT_CLOCK_SECONDS};

fn type_text(app: &mut LichessApp, text: &str) {
    for c in text.chars() {
        assert!(app.input(Key::Char(c)));
    }
}

fn buffer_string(app: &LichessApp) -> String {
    app.input_buffer.text()
}

#[test]
fn e4_moves_the_king_pawn() {
    let mut app = LichessApp::new();
    assert_eq!(app.player_side, BoardColor::White);
    type_text(&mut app, "e4");
    assert_eq!(buffer_string(&app), "e4");
    assert!(app.input(Key::Char('\n')));
    let view = app.view();
    let e2 = 8 + 4;
    let e4 = 3 * 8 + 4;
    assert_eq!(view.square(e2).piece, None);
    assert_eq!(view.square(e2).color, None);
    assert_eq!(view.square(e4).piece, Some(PieceKind::Pawn));
    assert_eq!(view.square(e4).color, Some(BoardColor::White));
    assert_eq!(view.side, BoardColor::Black);
    assert_eq!(buffer_string(&app), "");
    assert_eq!(app.board_message, "");
}

#[test]
fn white_clock_runs_until_white_moves() {
    let mut app = LichessApp::new();
    app.update(1000);
    assert_eq!(app.players.0.clock, DEFAULT_CLOCK_SECONDS - 1);
    assert_eq!(app.players.1.clock, DEFAULT_CLOCK_SECONDS);
    app.update(1500);
    assert_eq!(app.players.0.clock, DEFAULT_CLOCK_SECONDS - 1);
    type_text(&mut app, "e4");
    app.input(Key::Char('\n'));
    app.update(2000);
    assert_eq!(app.players.0.clock, DEFAULT_CLOCK_SECONDS - 1);
    assert_eq!(app.players.1.clock, DEFAULT_CLOCK_SECONDS - 1);
    assert_eq!(app.last_tick_ms, 2000);
}

#[test]
fn unparsable_text_sets_the_status_line() {
    let mut app = LichessApp::new();
    let before = app.view();
    type_text(&mut app, "zz9");
    let r = app.submit();
    assert_eq!(r, Err(MoveRejection::Unparsed));
    assert_eq!(app.board_message, "zz9 is not a valid move!");
    assert_eq!(buffer_string(&app), "");
    let after = app.view();
    assert!(before.squares == after.squares);
    assert_eq!(before.side, after.side);
}

#[test]
fn next_submission_clears_the_status_line() {
    let mut app = LichessApp::new();
    type_text(&mut app, "zz9");
    app.input(Key::Char('\n'));
    type_text(&mut app, "Nf3");
    assert_eq!(app.submit(), Ok(()));
    assert_eq!(app.board_message, "");
    let view = app.view();
    assert_eq!(view.square(2 * 8 + 5).piece, Some(PieceKind::Knight));
    assert_eq!(view.square(6).piece, None);
}

#[test]
fn move_not_legal_in_the_position_is_unparsed() {
    let mut app = LichessApp::new();
    type_text(&mut app, "e5");
    assert_eq!(app.submit(), Err(MoveRejection::Unparsed));
    assert_eq!(app.board_message, "e5 is not a valid move!");
    assert_eq!(app.view().square(3 * 8 + 4).piece, None);
}

#[test]
fn illegal_outcome_keeps_position_and_status_empty() {
    let mut app = LichessApp::new();
    type_text(&mut app, "e4");
    let r = app.resolve_submission(Err(MoveRejection::Illegal));
    assert_eq!(r, Err(MoveRejection::Illegal));
    assert_eq!(app.board_message, "");
    assert_eq!(buffer_string(&app), "");
    assert_eq!(app.view().square(8 + 4).piece, Some(PieceKind::Pawn));
}

#[test]
fn applied_outcome_replaces_the_position() {
    let mut app = LichessApp::new();
    let mut other = LichessApp::new();
    type_text(&mut other, "d4");
    other.submit().unwrap();
    type_text(&mut app, "xyz");
    let r = app.resolve_submission(Ok(other.board));
    assert_eq!(r, Ok(()));
    assert_eq!(app.view().square(3 * 8 + 3).piece, Some(PieceKind::Pawn));
    assert_eq!(app.view().side, BoardColor::Black);
    assert_eq!(buffer_string(&app), "");
}

#[test]
fn buffer_refuses_past_capacity() {
    let mut app = LichessApp::new();
    for _ in 0..MAX_INPUT_BUFFER_SIZE {
        app.input(Key::Char('a'));
    }
    let full = buffer_string(&app);
    assert_eq!(full.chars().count(), MAX_INPUT_BUFFER_SIZE);
    app.input(Key::Char('b'));
    assert_eq!(buffer_string(&app), full);
    let mut b = InputBuffer::new();
    for _ in 0..20 {
        b.push_key('7');
    }
    assert_eq!(b.chars.len(), 16);
    assert!(!b.push_key('x'));
}

#[test]
fn buffer_refuses_non_alphanumeric() {
    let mut b = InputBuffer::new();
    assert!(!b.push_key('-'));
    assert!(!b.push_key(' '));
    assert!(!b.push_key('+'));
    assert!(b.push_key('O'));
    assert!(b.push_key('é'));
    assert_eq!(b.text(), "Oé");
    assert!(!b.append('q', false));
    assert!(b.append('q', true));
    assert_eq!(b.text(), "Oéq");
}

#[test]
fn backspace_removes_last_character() {
    let mut app = LichessApp::new();
    app.input(Key::Backspace);
    assert_eq!(buffer_string(&app), "");
    type_text(&mut app, "Nf3");
    app.input(Key::Backspace);
    assert_eq!(buffer_string(&app), "Nf");
    app.input(Key::Other);
    assert_eq!(buffer_string(&app), "Nf");
}

#[test]
fn clock_counts_whole_seconds_only() {
    let s = ClockState { white: 10, black: 20, last_tick_ms: 5000 };
    assert_eq!(tick_clocks(s, 5999, BoardColor::White), s);
    let t = tick_clocks(s, 6000, BoardColor::White);
    assert_eq!(t, ClockState { white: 9, black: 20, last_tick_ms: 6000 });
    let u = tick_clocks(s, 9000, BoardColor::Black);
    assert_eq!(u, ClockState { white: 10, black: 19, last_tick_ms: 9000 });
    assert_eq!(tick_clocks(s, 1000, BoardColor::White), s);
}

#[test]
fn clock_stops_at_zero() {
    let s = ClockState { white: 0, black: 3, last_tick_ms: 0 };
    let t = tick_clocks(s, 1000, BoardColor::White);
    assert_eq!(t, ClockState { white: 0, black: 3, last_tick_ms: 1000 });
}

#[test]
fn clock_never_rises_over_a_run() {
    let mut s = ClockState { white: 2, black: 2, last_tick_ms: 0 };
    let mut now = 0u64;
    for i in 0..10u64 {
        now += 700;
        let side = if i % 3 == 0 { BoardColor::White } else { BoardColor::Black };
        let t = tick_clocks(s, now, side);
        assert!(t.white <= s.white && t.black <= s.black);
        let changed = (t.white != s.white) as u32 + (t.black != s.black) as u32;
        assert!(changed <= 1);
        s = t;
    }
    assert_eq!(s.white + s.black, 0);
}

#[test]
fn orientation_maps_cells_to_squares() {
    assert_eq!(square_index(0, 0, BoardColor::White), 56);
    assert_eq!(square_index(7, 7, BoardColor::White), 7);
    assert_eq!(square_index(0, 0, BoardColor::Black), 7);
    assert_eq!(square_index(7, 0, BoardColor::Black), 63);
    for row in 0..8 {
        for col in 0..8 {
            let w = square_index(row, col, BoardColor::White);
            assert_eq!(w, (7 - row) * 8 + col);
            let b = square_index(row, col, BoardColor::Black);
            assert_eq!(b, 63 - w);
            assert_eq!(cell_of_square(b, BoardColor::Black), (row, col));
            assert_eq!(cell_of_square(w, BoardColor::White), (row, col));
        }
    }
}

#[test]
fn engine_numbers_rank_eight_first() {
    assert_eq!(engine_index(0), 56);
    assert_eq!(engine_index(63), 7);
    assert_eq!(engine_index(12), 52);
}

#[test]
fn hints_follow_orientation() {
    let w: String = file_hint(BoardColor::White).into_iter().collect();
    let b: String = file_hint(BoardColor::Black).into_iter().collect();
    assert_eq!(w, "a b c d e f g h");
    assert_eq!(b, "h g f e d c b a");
    assert_eq!(rank_label(0, BoardColor::White), 8);
    assert_eq!(rank_label(0, BoardColor::Black), 1);
    assert_eq!(rank_label(7, BoardColor::White), 1);
    assert_eq!(file_label(2, BoardColor::Black), 'f');
}

#[test]
fn initial_board_paint_from_white() {
    let app = LichessApp::new();
    let view = app.view();
    let cells = view.paint(BoardColor::White);
    assert_eq!(cells.len(), 64);
    assert_eq!(cells[0], CellPaint { glyph: '♜', theme: Theme::WhiteCellBlackPiece });
    assert_eq!(cells[7 * 8 + 4], CellPaint { glyph: '♚', theme: Theme::BlackCellWhitePiece });
    assert_eq!(cells[7 * 8 + 3], CellPaint { glyph: '♛', theme: Theme::WhiteCellWhitePiece });
    assert_eq!(cells[4 * 8 + 1], CellPaint { glyph: ' ', theme: Theme::BlackCellWhitePiece });
    assert_eq!(cells[1 * 8 + 1], CellPaint { glyph: '♟', theme: Theme::WhiteCellBlackPiece });
}

#[test]
fn initial_board_paint_from_black() {
    let view = LichessApp::new().view();
    let cells = view.paint(BoardColor::Black);
    assert_eq!(cells[0], CellPaint { glyph: '♜', theme: Theme::WhiteCellWhitePiece });
    assert_eq!(cells[3], CellPaint { glyph: '♚', theme: Theme::BlackCellWhitePiece });
    assert_eq!(cells[7 * 8 + 6], CellPaint { glyph: '♞', theme: Theme::BlackCellBlackPiece });
    assert_eq!(view.paint_cell(7, 3, BoardColor::Black).glyph, '♚');
}

#[test]
fn glyphs_per_piece_kind() {
    assert_eq!(glyph(None), ' ');
    assert_eq!(glyph(Some(PieceKind::Pawn)), '♟');
    assert_eq!(glyph(Some(PieceKind::Knight)), '♞');
    assert_eq!(glyph(Some(PieceKind::Bishop)), '♝');
    assert_eq!(glyph(Some(PieceKind::Rook)), '♜');
    assert_eq!(glyph(Some(PieceKind::Queen)), '♛');
    assert_eq!(glyph(Some(PieceKind::King)), '♚');
}

#[test]
fn clock_panel_layout() {
    assert_eq!(clock_parts(125), (2, 5));
    assert_eq!(clock_parts(59), (0, 59));
    assert_eq!(clock_order(BoardColor::White), (BoardColor::Black, BoardColor::White));
    assert_eq!(clock_order(BoardColor::Black), (BoardColor::White, BoardColor::Black));
    assert!(clock_highlighted(BoardColor::White, BoardColor::White));
    assert!(!clock_highlighted(BoardColor::White, BoardColor::Black));
}

#[test]
fn player_title_is_optional() {
    let p = Player::new("huy", 2400, "");
    assert_eq!(p.name, "huy");
    assert_eq!(p.rate, 2400);
    assert!(p.title.is_none());
    assert_eq!(p.clock, DEFAULT_CLOCK_SECONDS);
    let q = Player::new("huygm", 3000, "GM");
    assert_eq!(q.title.as_deref(), Some("GM"));
}

#[test]
fn lone_piece_letter_is_not_a_valid_move() {
    let mut app = LichessApp::new();
    type_text(&mut app, "N");
    assert!(app.input(Key::Char('\n')));
    assert_eq!(app.board_message, "N is not a valid move!");
    assert_eq!(buffer_string(&app), "");
    assert_eq!(app.side_to_move(), BoardColor::White);
    for text in ["Nf", "Nx", "Kx", "Q"] {
        type_text(&mut app, text);
        assert_eq!(app.submit(), Err(MoveRejection::Unparsed));
        assert_eq!(app.board_message, format!("{} is not a valid move!", text));
    }
}

#[test]
fn non_ascii_text_is_not_a_valid_move() {
    let mut app = LichessApp::new();
    for text in ["中", "éa", "aéb", "e4é"] {
        type_text(&mut app, text);
        assert_eq!(app.submit(), Err(MoveRejection::Unparsed));
        assert_eq!(app.board_message, format!("{} is not a valid move!", text));
    }
    assert_eq!(app.view().square(8 + 4).piece, Some(PieceKind::Pawn));
}

#[test]
fn san_readable_texts() {
    let chars = |s: &str| s.chars().collect::<Vec<char>>();
    assert!(is_san_readable(&chars("e4")));
    assert!(is_san_readable(&chars("Nf3")));
    assert!(is_san_readable(&chars("Nf3x")));
    assert!(is_san_readable(&chars("")));
    assert!(is_san_readable(&chars("zz9")));
    assert!(!is_san_readable(&chars("N")));
    assert!(!is_san_readable(&chars("Nfx")));
    assert!(!is_san_readable(&chars("é4")));
}

#[test]
fn new_match_defaults() {
    let app = LichessApp::new();
    assert_eq!(app.players.0.name, "huy");
    assert_eq!(app.players.0.rate, 2400);
    assert!(app.players.0.title.is_none());
    assert_eq!(app.players.1.name, "huygm");
    assert_eq!(app.players.1.rate, 3000);
    assert_eq!(app.players.1.title.as_deref(), Some("GM"));
    let view = app.view();
    assert_eq!(view.square(0).piece, Some(PieceKind::Rook));
    assert_eq!(view.square(4).piece, Some(PieceKind::King));
    assert_eq!(view.square(59).piece, Some(PieceKind::Queen));
    assert_eq!(view.square(59).color, Some(BoardColor::Black));
    assert_eq!(view.square(35).piece, None);
}
