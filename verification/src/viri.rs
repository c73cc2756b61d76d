//! Calls into the `viriformat` crate, the data format of the viridithas
//! chess engine.
use vstd::prelude::*;

use viriformat::chess::board::Board;
use viriformat::chess::types::Square;

use viriformat::chess::board::{DrawType as VDraw, GameOutcome as VOutcome, WinType as VWin};
use viriformat::chess::chessmove::{Move, MoveFlags as VFlags};
use viriformat::chess::piece::PieceType as VPieceType;
use viriformat::dataformat::Game;

use crate::fen_scan::viri_fen_safe;
use crate::chess::{DrawType, GameOutcome, PieceType, ViriCastling, ViriMove, ViriMoveKind, WinType};

verus! {

/// A viriformat board; opaque here, read through the functions below.
#[verifier::external_type_specification]
#[verifier::external_body]
pub struct ExViriBoard(viriformat::chess::board::Board);

/// The type and colour ordinals (`PieceType::inner`, `Colour::inner`) of
/// the piece that `Board::piece_at` finds on a square, or `None`.
pub uninterp spec fn viri_board_piece(board: Board, square: u8) -> Option<(u8, u8)>;

/// The rook squares of the rights that `Board::castling_rights` holds.
pub uninterp spec fn viri_board_rights(board: Board) -> ViriCastling;

/// The index of `Board::ep_sq`, if any.
pub uninterp spec fn viri_board_ep(board: Board) -> Option<u8>;

/// The ordinal of `Board::turn` (0 White, 1 Black).
pub uninterp spec fn viri_board_side(board: Board) -> u8;

/// The halfmove clock of a board (the counter that `halfmove_clock_mut`
/// gives access to).
pub uninterp spec fn viri_board_halfmoves(board: Board) -> u8;

/// The text of `Board::to_string`: the board's FEN.
pub uninterp spec fn viri_board_text(board: Board) -> Seq<char>;

/// `Board::ply`.
pub uninterp spec fn viri_board_plies(board: Board) -> usize;

/// Whether `Board::make_move_simple` finds a move legal (it leaves the
/// mover's king unattacked).
pub uninterp spec fn viri_move_legal(board: Board, m: ViriMove) -> bool;

/// The board that `Board::make_move_simple` leaves after a legal move.
pub uninterp spec fn viri_board_after(board: Board, m: ViriMove) -> Board;

/// The text of `CastlingRights::display(true)` of a board's rights.
pub uninterp spec fn viri_rights_text(board: Board) -> Seq<char>;

/// Calls `Board::piece_at` and returns the piece's type and colour
/// ordinals (`PieceType::inner`, `Colour::inner`), or `None` for an empty
/// square.
#[verifier::external_body]
pub(crate) fn viri_piece_at(board: &Board, square: u8) -> (r: Option<(u8, u8)>)
    requires
        square < 64,
    ensures
        r == viri_board_piece(*board, square),
        r matches Some((t, c)) ==> t <= 5 && c <= 1,
{
    match board.piece_at(Square::new_clamped(square)) {
        Some(piece) => Some((piece.piece_type().inner(), piece.colour().inner())),
        None => None,
    }
}

/// Calls `Board::castling_rights` and returns the rook square index
/// (`Square::inner`) of each right.
#[verifier::external_body]
pub(crate) fn viri_castling_rights(board: &Board) -> (r: ViriCastling)
    ensures
        r == viri_board_rights(*board),
        r.wk matches Some(s) ==> s < 64,
        r.wq matches Some(s) ==> s < 64,
        r.bk matches Some(s) ==> s < 64,
        r.bq matches Some(s) ==> s < 64,
{
    let rights = board.castling_rights();
    ViriCastling {
        wk: rights.wk.map(Square::inner),
        wq: rights.wq.map(Square::inner),
        bk: rights.bk.map(Square::inner),
        bq: rights.bq.map(Square::inner),
    }
}

/// Calls `Board::ep_sq` and returns the en passant square's index.
#[verifier::external_body]
pub(crate) fn viri_ep_square(board: &Board) -> (r: Option<u8>)
    ensures
        r == viri_board_ep(*board),
        r matches Some(s) ==> s < 64,
{
    board.ep_sq().map(Square::inner)
}

/// Calls `Board::turn` and returns its ordinal.
#[verifier::external_body]
pub(crate) fn viri_side_to_move(board: &Board) -> (r: u8)
    ensures
        r == viri_board_side(*board),
{
    board.turn().inner()
}

/// Reads a board's halfmove clock through `Board::halfmove_clock_mut` on a
/// copy of the board.
#[verifier::external_body]
pub(crate) fn viri_halfmove_clock(board: &Board) -> (r: u8)
    ensures
        r == viri_board_halfmoves(*board),
{
    *board.clone().halfmove_clock_mut()
}

/// A viriformat game; opaque here, built through the functions below.
#[verifier::external_type_specification]
#[verifier::external_body]
pub struct ExViriGame(viriformat::dataformat::Game);

/// Calls `Board::to_string`, the board's FEN.
#[verifier::external_body]
pub(crate) fn viri_board_fen(board: &Board) -> (r: String)
    ensures
        r@ == viri_board_text(*board),
{
    board.to_string()
}

/// Calls `Board::ply`.
#[verifier::external_body]
pub(crate) fn viri_board_ply(board: &Board) -> (r: usize)
    ensures
        r == viri_board_plies(*board),
{
    board.ply()
}

/// The number of squares below `n` on which `Board::piece_at` finds a piece.
pub open spec fn viri_piece_count(board: Board, n: nat) -> nat
    decreases n,
{
    if n == 0 {
        0
    } else {
        viri_piece_count(board, (n - 1) as nat) + if viri_board_piece(board, (n - 1) as u8) is Some {
            1nat
        } else {
            0nat
        }
    }
}

/// The number of squares below `n` that hold a king of the given colour
/// ordinal.
pub open spec fn viri_king_count(board: Board, colour: u8, n: nat) -> nat
    decreases n,
{
    if n == 0 {
        0
    } else {
        viri_king_count(board, colour, (n - 1) as nat) + if viri_board_piece(board, (n - 1) as u8) == Some(
            (5u8, colour),
        ) {
            1nat
        } else {
            0nat
        }
    }
}

/// What `Board::check_validity` (compiled into debug builds only) asks of
/// a board beyond the agreement of its internal tables and keys, which
/// boards built by `set_from_fen` from a text that `viri_fen_safe` admits,
/// by `PackedBoard::unpack` and by `make_move_simple` keep: one king of each
/// colour, an en passant square on the sixth rank with White to move or the
/// third with Black to move, and a halfmove clock of at most 100.
pub open spec fn viri_board_consistent(board: Board) -> bool {
    &&& viri_king_count(board, 0, 64) == 1
    &&& viri_king_count(board, 1, 64) == 1
    &&& viri_board_ep(board) matches Some(e) ==> ((viri_board_side(board) == 0 && e / 8 == 5) || (
        viri_board_side(board) == 1 && e / 8 == 2))
    &&& viri_board_halfmoves(board) <= 100
}

/// Whether `PackedBoard::pack` (called by `Game::new`) takes a board without
/// panicking: it stores one piece code per occupied square in 32 slots, so
/// at most 32 squares are occupied; it converts the fullmove number
/// (`ply / 2 + 1`) to a `u16`; and it looks up each side's king, asserting
/// that there is one.
pub open spec fn viri_board_packable(board: Board) -> bool {
    &&& viri_piece_count(board, 64) <= 32
    &&& viri_board_plies(board) / 2 + 1 <= 0xffff
    &&& viri_king_count(board, 0, 64) == 1
    &&& viri_king_count(board, 1, 64) == 1
}

/// Whether a move can be handed to viriformat's `Move` constructors: its
/// squares lie on the board and differ (the constructors assert it), and a
/// promotion is to a knight, bishop, rook or queen.
pub open spec fn viri_move_encodable(m: ViriMove) -> bool {
    &&& m.from < 64
    &&& m.to < 64
    &&& m.from != m.to
    &&& m.kind matches ViriMoveKind::Promotion(t) ==> (t == PieceType::Knight || t == PieceType::Bishop
        || t == PieceType::Rook || t == PieceType::Queen)
}

/// Whether `Board::make_move_simple` can be handed a move on a board
/// without panicking: the board is consistent (debug builds assert
/// `check_validity` on entry and again after the move); a castling move goes
/// to the rook square of a right held; an en passant move does not land on
/// the first or last rank; no king stands on the target of a move other
/// than castling (its capture would leave no king for the king lookups); a
/// pawn move from the second or seventh rank to the fourth or fifth starts
/// on the side to move's own second rank (the en passant square it may set
/// must lie on the third or sixth); and a move that is no capture and no
/// pawn move, which adds one to the halfmove clock, starts below 100.
pub open spec fn viri_move_safe(board: Board, m: ViriMove) -> bool {
    let rights = viri_board_rights(board);
    let target = viri_board_piece(board, m.to);
    let moved = viri_board_piece(board, m.from);
    &&& viri_move_encodable(m)
    &&& viri_board_consistent(board)
    &&& m.kind == ViriMoveKind::Castle ==> (rights.wk == Some(m.to) || rights.wq == Some(m.to) || rights.bk
        == Some(m.to) || rights.bq == Some(m.to))
    &&& m.kind == ViriMoveKind::EnPassant ==> 8 <= m.to < 56
    &&& m.kind != ViriMoveKind::Castle ==> !(target matches Some((t, _)) && t == 5)
    &&& (moved matches Some((t, _)) && t == 0 && (m.from / 8 == 1 || m.from / 8 == 6) && (m.to / 8 == 3 || m.to
        / 8 == 4)) ==> ((m.from / 8 == 1 && viri_board_side(board) == 0) || (m.from / 8 == 6 && viri_board_side(
        board,
    ) == 1))
    &&& (viri_board_halfmoves(board) < 100 || (moved matches Some((t, _)) && t == 0) || (m.kind
        != ViriMoveKind::Castle && target is Some))
}

/// Builds viriformat's `Move` for a move (`Move::new`, `new_with_flags` or
/// `new_with_promo`, as its kind says) and calls `Board::make_move_simple`,
/// which plays it and returns whether it was legal, leaving the board after
/// the move when it was.
#[verifier::external_body]
pub(crate) fn viri_make_move(board: &mut Board, m: ViriMove) -> (legal: bool)
    requires
        viri_move_safe(*old(board), m),
    ensures
        legal == viri_move_legal(*old(board), m),
        legal ==> *final(board) == viri_board_after(*old(board), m),
{
    let (from, to) = (Square::new_clamped(m.from), Square::new_clamped(m.to));
    let mv = match m.kind {
        ViriMoveKind::Normal => Move::new(from, to),
        ViriMoveKind::EnPassant => Move::new_with_flags(from, to, VFlags::EnPassant),
        ViriMoveKind::Castle => Move::new_with_flags(from, to, VFlags::Castle),
        ViriMoveKind::Promotion(t) => Move::new_with_promo(from, to, VPieceType::new(t as u8).unwrap()),
    };
    board.make_move_simple(mv)
}

/// What `Board::set_from_fen` (standard chess) makes of a text on a new
/// board: the board, or its error's text.
pub uninterp spec fn viri_fen_board(fen: Seq<char>) -> Result<Board, Seq<char>>;

/// Calls `Board::new` and `Board::set_from_fen` (standard chess, not
/// Chess960), giving the board or the error's text; the texts on which the
/// parser panics are left out (see `viri_fen_safe`).
#[verifier::external_body]
pub(crate) fn viri_board_from_fen(fen: &str) -> (r: Result<Board, String>)
    requires
        viri_fen_safe(fen@),
    ensures
        match (r, viri_fen_board(fen@)) {
            (Ok(b), Ok(c)) => b == c,
            (Err(e), Err(t)) => e@ == t,
            _ => false,
        },
{
    let mut board = Board::new();
    match board.set_from_fen(fen, false) {
        Ok(()) => Ok(board),
        Err(error) => Err(error.to_string()),
    }
}

/// Calls `CastlingRights::display(true)` on the board's rights: the files
/// of the rights' rooks, upper case for White.
#[verifier::external_body]
pub(crate) fn viri_castling_text(board: &Board) -> (r: String)
    ensures
        r@ == viri_rights_text(*board),
{
    board.castling_rights().display(true).to_string()
}

/// The moves a viriformat game holds (its `moves` field), each with the
/// evaluation of the position it was played in.
pub uninterp spec fn viri_game_moves(game: Game) -> Seq<(ViriMove, i16)>;

/// The outcome a viriformat game holds, packed as its initial position
/// stores it: 2 for a White win, 1 for a draw, 0 for a Black win.
pub uninterp spec fn viri_game_packed_outcome(game: Game) -> u8;

/// The packed form of a finished game's outcome (`GameOutcome::as_packed_u8`,
/// which panics on a game still going on, so no call hands it one).
pub open spec fn packed_outcome(outcome: GameOutcome) -> u8 {
    match outcome {
        GameOutcome::WhiteWin(_) => 2,
        GameOutcome::Draw(_) => 1,
        _ => 0,
    }
}

/// Calls `Game::new`: a game starting on the board, whose `moves` field
/// is a new, empty vector. The board is packed on the way (see
/// `viri_board_packable`).
#[verifier::external_body]
pub(crate) fn viri_game_new(board: &Board) -> (g: Game)
    requires
        viri_board_packable(*board),
    ensures
        viri_game_moves(g) == Seq::<(ViriMove, i16)>::empty(),
{
    Game::new(board)
}

/// Calls `Game::set_outcome` with viriformat's outcome of the same variant;
/// its source stores `as_packed_u8` of the outcome in the initial position
/// and leaves the moves alone.
#[verifier::external_body]
pub(crate) fn viri_game_set_outcome(game: &mut Game, outcome: GameOutcome)
    requires
        outcome == GameOutcome::WhiteWin(WinType::Adjudication) || outcome == GameOutcome::Draw(
            DrawType::Adjudication,
        ) || outcome == GameOutcome::BlackWin(WinType::Adjudication),
    ensures
        viri_game_moves(*final(game)) == viri_game_moves(*old(game)),
        viri_game_packed_outcome(*final(game)) == packed_outcome(outcome),
{
    game.set_outcome(match outcome {
        GameOutcome::WhiteWin(_) => VOutcome::WhiteWin(VWin::Adjudication),
        GameOutcome::Draw(_) => VOutcome::Draw(VDraw::Adjudication),
        _ => VOutcome::BlackWin(VWin::Adjudication),
    })
}

/// Calls `Game::add_move` with viriformat's `Move` for the move (built as in
/// `viri_make_move`) and its evaluation, which its source pushes onto the
/// game's `moves`; the outcome stays.
#[verifier::external_body]
pub(crate) fn viri_game_add_move(game: &mut Game, m: ViriMove, eval: i16)
    requires
        viri_move_encodable(m),
    ensures
        viri_game_moves(*final(game)) == viri_game_moves(*old(game)).push((m, eval)),
        viri_game_packed_outcome(*final(game)) == viri_game_packed_outcome(*old(game)),
{
    let (from, to) = (Square::new_clamped(m.from), Square::new_clamped(m.to));
    let mv = match m.kind {
        ViriMoveKind::Normal => Move::new(from, to),
        ViriMoveKind::EnPassant => Move::new_with_flags(from, to, VFlags::EnPassant),
        ViriMoveKind::Castle => Move::new_with_flags(from, to, VFlags::Castle),
        ViriMoveKind::Promotion(t) => Move::new_with_promo(from, to, VPieceType::new(t as u8).unwrap()),
    };
    game.add_move(mv, eval)
}

} // verus!
