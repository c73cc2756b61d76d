//! Reading games from and writing games to the viriformat encoding.
use vstd::prelude::*;
use vstd::string::*;
use vstd::utf8::encode_utf8;

use viriformat::chess::board::Board;
use viriformat::dataformat::Game;

use crate::chess::{Piece, ViriCastling, ViriMove, ViriMoveKind, MoveType, A1, A8, H1, H8};
use crate::convert::{
    captured_of, piece_of, uci_to_viri_move_outcome, game_result_to_viri_outcome, sf_move_to_uci, uci_promotion, uci_squares, uci_to_viri_move,
    viri_move_to_sf_move, viri_to_sf_spec, viri_uci_readable, viri_move_spec,
};
use crate::error::Error;
use crate::fen_scan::{fen_is_safe, viri_fen_safe};
use crate::model::{ucis_of, GameRecord, GameResult, PositionMoveEval};
use crate::text::concat;
use crate::roundtrip::{canonical_uci, law_viri_move_keeps_uci};
use crate::viri::{
    viri_board_after, viri_board_ep, viri_board_fen, viri_board_from_fen, viri_board_piece, viri_board_plies, viri_board_ply,
    viri_board_rights, viri_board_text, viri_castling_rights, viri_castling_text, viri_ep_square, viri_fen_board,
    viri_game_add_move, viri_game_moves, viri_game_new, viri_game_packed_outcome, viri_game_set_outcome,
    viri_board_consistent, viri_board_packable, viri_halfmove_clock, viri_king_count, viri_make_move, viri_piece_count, viri_move_encodable, viri_move_legal, viri_move_safe, viri_piece_at,
    viri_rights_text, viri_side_to_move,
};

verus! {

broadcast use vstd::string::group_string_axioms;

/// A game read from a viriformat file: its starting board, its packed
/// result (2 White win, 1 draw, 0 Black win) and its moves with the
/// evaluation of the position each was played in.
pub struct ViriGameData {
    pub initial: Board,
    pub packed_result: u8,
    pub moves: Vec<(ViriMove, i16)>,
}

impl ViriGameData {
    /// Every move can be handed back to viriformat, and written as UCI text
    /// by the binpack library.
    pub open spec fn wf(&self) -> bool {
        forall|i: int|
            0 <= i < self.moves@.len() ==> viri_move_encodable(#[trigger] self.moves@[i].0) && sf_expressible(
                self.moves@[i].0,
            )
    }
}

impl ViriGameData {
    /// Checks `wf`: whether the game's moves can be read into the game model.
    pub fn moves_readable(&self) -> (r: bool)
        ensures
            r == self.wf(),
    {
        let n = self.moves.len();
        let mut i: usize = 0;
        while i < n
            invariant
                n == self.moves@.len(),
                i <= n,
                forall|j: int|
                    0 <= j < i ==> viri_move_encodable(#[trigger] self.moves@[j].0) && sf_expressible(
                        self.moves@[j].0,
                    ),
            decreases n - i,
        {
            let m = self.moves[i].0;
            let encodable = m.from < 64 && m.to < 64 && m.from != m.to && match m.kind {
                ViriMoveKind::Promotion(t) => match t {
                    crate::chess::PieceType::Knight | crate::chess::PieceType::Bishop
                    | crate::chess::PieceType::Rook | crate::chess::PieceType::Queen => true,
                    _ => false,
                },
                _ => true,
            };
            let expressible = match m.kind {
                ViriMoveKind::Castle => m.to % 8 == 0 || m.to % 8 == 7,
                _ => true,
            };
            if !(encodable && expressible) {
                return false;
            }
            i += 1;
        }
        true
    }
}

pub open spec fn packed_result_spec(packed: u8) -> Option<GameResult> {
    if packed == 2 {
        Some(GameResult::WhiteWin)
    } else if packed == 1 {
        Some(GameResult::Draw)
    } else if packed == 0 {
        Some(GameResult::BlackWin)
    } else {
        None
    }
}

/// The game result of a packed viriformat result.
pub fn result_from_packed(packed: u8) -> (r: Result<GameResult, Error>)
    ensures
        match packed_result_spec(packed) {
            Some(g) => r == Ok::<GameResult, Error>(g),
            None => r matches Err(Error::InvalidViriformat(m)) && m@
                == "viriformat game has an invalid packed result"@,
        },
{
    match packed {
        2 => Ok(GameResult::WhiteWin),
        1 => Ok(GameResult::Draw),
        0 => Ok(GameResult::BlackWin),
        _ => {
            proof {
                reveal_strlit("viriformat game has an invalid packed result");
            }
            Err(Error::InvalidViriformat(String::from_str("viriformat game has an invalid packed result")))
        },
    }
}

/// Whether a viriformat move can be written in the binpack encoding's UCI
/// text: a castling move's rook stands on the a or h file.
pub open spec fn sf_expressible(m: ViriMove) -> bool {
    m.kind == ViriMoveKind::Castle ==> (m.to % 8 == 0 || m.to % 8 == 7)
}

/// What a record read from a viriformat game keeps of it: the result,
/// and for each move its UCI text (as the binpack library writes it) and
/// its evaluation.
pub open spec fn read_from(game: ViriGameData, rec: GameRecord) -> bool {
    &&& packed_result_spec(game.packed_result) == Some(rec.result)
    &&& rec.positions@.len() == game.moves@.len()
    &&& forall|i: int| 0 <= i < rec.positions@.len() ==> {
        &&& (#[trigger] rec.positions@[i]).uci@ == viri_to_sf_spec(game.moves@[i].0).uci_text()
        &&& rec.positions@[i].score == game.moves@[i].1
    }
}

/// The board after the first `k` moves of a game from `board`, when each
/// of them can be handed to viriformat (see `viri_move_safe`) and is legal.
pub open spec fn viri_boards(board: Board, moves: Seq<ViriMove>, k: nat) -> Option<Board>
    decreases k,
{
    if k == 0 {
        Some(board)
    } else {
        match viri_boards(board, moves, (k - 1) as nat) {
            Some(b) => if viri_move_safe(b, moves[k - 1]) && viri_move_legal(b, moves[k - 1]) {
                Some(viri_board_after(b, moves[k - 1]))
            } else {
                None
            },
            None => None,
        }
    }
}

/// The moves of a viriformat game, without their evaluations.
pub open spec fn game_moves(game: ViriGameData) -> Seq<ViriMove> {
    game.moves@.map_values(|e: (ViriMove, i16)| e.0)
}

/// Boards reached from a board by a prefix of moves came through the boards
/// of the shorter prefixes.
proof fn lemma_viri_boards_prefix(board: Board, moves: Seq<ViriMove>, i: nat, j: nat)
    requires
        i <= j,
        viri_boards(board, moves, j) is Some,
    ensures
        viri_boards(board, moves, i) is Some,
    decreases j - i,
{
    if i < j {
        lemma_viri_boards_prefix(board, moves, i, (j - 1) as nat);
    }
}

/// Counts the occupied squares of a board and each side's kings.
fn count_pieces(board: &Board) -> (r: (u8, u8, u8))
    ensures
        r.0 == viri_piece_count(*board, 64),
        r.1 == viri_king_count(*board, 0, 64),
        r.2 == viri_king_count(*board, 1, 64),
{
    let mut sq: u8 = 0;
    let mut pieces: u8 = 0;
    let mut white: u8 = 0;
    let mut black: u8 = 0;
    while sq < 64
        invariant
            sq <= 64,
            pieces == viri_piece_count(*board, sq as nat),
            white == viri_king_count(*board, 0, sq as nat),
            black == viri_king_count(*board, 1, sq as nat),
            pieces <= sq,
            white <= sq,
            black <= sq,
        decreases 64 - sq,
    {
        match viri_piece_at(board, sq) {
            Some((t, c)) => {
                pieces += 1;
                if t == 5 && c == 0 {
                    white += 1;
                } else if t == 5 && c == 1 {
                    black += 1;
                }
            },
            None => {},
        }
        sq += 1;
    }
    (pieces, white, black)
}

/// Checks `viri_board_consistent`.
fn board_is_consistent(board: &Board) -> (r: bool)
    ensures
        r == viri_board_consistent(*board),
{
    let (_, white, black) = count_pieces(board);
    if white != 1 || black != 1 {
        return false;
    }
    let side = viri_side_to_move(board);
    if let Some(e) = viri_ep_square(board) {
        if !((side == 0 && e / 8 == 5) || (side == 1 && e / 8 == 2)) {
            return false;
        }
    }
    viri_halfmove_clock(board) <= 100
}

/// Checks `viri_board_packable`.
fn board_is_packable(board: &Board) -> (r: bool)
    ensures
        r == viri_board_packable(*board),
{
    let (pieces, white, black) = count_pieces(board);
    let plies = viri_board_ply(board);
    pieces <= 32 && plies / 2 + 1 <= 0xffff && white == 1 && black == 1
}

/// Checks `viri_move_safe`.
fn move_is_safe(board: &Board, m: ViriMove) -> (r: bool)
    ensures
        r == viri_move_safe(*board, m),
{
    if !(m.from < 64 && m.to < 64 && m.from != m.to) {
        return false;
    }
    let promo_ok = match m.kind {
        ViriMoveKind::Promotion(t) => match t {
            crate::chess::PieceType::Knight | crate::chess::PieceType::Bishop | crate::chess::PieceType::Rook
            | crate::chess::PieceType::Queen => true,
            _ => false,
        },
        _ => true,
    };
    if !promo_ok {
        return false;
    }
    if !board_is_consistent(board) {
        return false;
    }
    let rights = viri_castling_rights(board);
    let is_castle = match m.kind {
        ViriMoveKind::Castle => true,
        _ => false,
    };
    let is_ep = match m.kind {
        ViriMoveKind::EnPassant => true,
        _ => false,
    };
    if is_castle && !(rights.wk == Some(m.to) || rights.wq == Some(m.to) || rights.bk == Some(m.to) || rights.bq
        == Some(m.to)) {
        return false;
    }
    if is_ep && !(8 <= m.to && m.to < 56) {
        return false;
    }
    let target = viri_piece_at(board, m.to);
    let moved = viri_piece_at(board, m.from);
    if !is_castle {
        if let Some((t, _)) = target {
            if t == 5 {
                return false;
            }
        }
    }
    let pawn = match moved {
        Some((t, _)) => t == 0,
        None => false,
    };
    if pawn && (m.from / 8 == 1 || m.from / 8 == 6) && (m.to / 8 == 3 || m.to / 8 == 4) {
        let side = viri_side_to_move(board);
        if !((m.from / 8 == 1 && side == 0) || (m.from / 8 == 6 && side == 1)) {
            return false;
        }
    }
    viri_halfmove_clock(board) < 100 || pawn || (!is_castle && target.is_some())
}

/// The FENs and plies of a record read from a viriformat game: the FEN of
/// its starting board, and for each position the FEN and ply of the board
/// before its move.
pub open spec fn read_boards(game: ViriGameData, rec: GameRecord) -> bool {
    &&& rec.initial_fen@ == viri_board_text(game.initial)
    &&& forall|i: int|
        0 <= i < rec.positions@.len() ==> (viri_boards(game.initial, game_moves(game), i as nat) matches Some(b)
            && (#[trigger] rec.positions@[i]).fen@ == viri_board_text(b) && rec.positions@[i].ply == (#[verifier::truncate] (viri_board_plies(b) as u16)))
}

/// Reads a viriformat game into the game model: the starting board's FEN,
/// the result, and for each move the board's FEN and ply before it, the
/// move in UCI text (castling by the king's destination) and the
/// evaluation. Every move is played on the board; the game is refused when a
/// move cannot be handed to viriformat or is not legal.
pub fn game_to_record(game: ViriGameData) -> (r: Result<GameRecord, Error>)
    requires
        game.wf(),
    ensures
        packed_result_spec(game.packed_result) is None ==> (r matches Err(Error::InvalidViriformat(m)) && m@
            == "viriformat game has an invalid packed result"@),
        packed_result_spec(game.packed_result) is Some ==> (r is Ok <==> viri_boards(
            game.initial,
            game_moves(game),
            game.moves@.len(),
        ) is Some),
        r matches Ok(rec) ==> read_from(game, rec) && read_boards(game, rec),
        r is Err && packed_result_spec(game.packed_result) is Some ==> (r matches Err(Error::InvalidViriformat(m))
            && m@ == "viriformat game contains an illegal move sequence"@),
{
    proof {
        reveal_strlit("viriformat game contains an illegal move sequence");
    }
    let ghost moves = game_moves(game);
    let mut board = game.initial;
    let initial_fen = viri_board_fen(&board);
    let result = result_from_packed(game.packed_result)?;
    let mut positions: Vec<PositionMoveEval> = Vec::new();
    let n = game.moves.len();
    let mut i: usize = 0;
    while i < n
        invariant
            n == game.moves@.len(),
            moves == game_moves(game),
            moves.len() == n,
            game.wf(),
            packed_result_spec(game.packed_result) == Some(result),
            initial_fen@ == viri_board_text(game.initial),
            i <= n,
            viri_boards(game.initial, moves, i as nat) == Some(board),
            positions@.len() == i,
            forall|j: int| 0 <= j < i ==> {
                &&& (#[trigger] positions@[j]).uci@ == viri_to_sf_spec(game.moves@[j].0).uci_text()
                &&& positions@[j].score == game.moves@[j].1
                &&& viri_boards(game.initial, moves, j as nat) matches Some(b)
                &&& positions@[j].fen@ == viri_board_text(b)
                &&& positions@[j].ply == (#[verifier::truncate] (viri_board_plies(b) as u16))
            },
        decreases n - i,
    {
        let (mv, eval) = game.moves[i];
        assert(viri_move_encodable(game.moves@[i as int].0) && sf_expressible(game.moves@[i as int].0));
        assert(moves[i as int] == mv);
        let sf_move = match viri_move_to_sf_move(mv) {
            Ok(m) => m,
            Err(e) => return Err(e),
        };
        let fen = viri_board_fen(&board);
        let ply = viri_board_ply(&board);
        let uci = sf_move_to_uci(sf_move);
        positions.push(PositionMoveEval { fen, uci, score: eval, ply: #[verifier::truncate] (ply as u16) });
        let safe = move_is_safe(&board, mv);
        if !safe || !viri_make_move(&mut board, mv) {
            proof {
                assert(viri_boards(game.initial, moves, (i + 1) as nat) is None);
                if viri_boards(game.initial, moves, n as nat) is Some {
                    lemma_viri_boards_prefix(game.initial, moves, (i + 1) as nat, n as nat);
                }
            }
            return Err(
                Error::InvalidViriformat(String::from_str("viriformat game contains an illegal move sequence")),
            );
        }
        proof {
            assert(viri_boards(game.initial, moves, (i + 1) as nat) == Some(board));
        }
        i += 1;
    }
    let rec = GameRecord { initial_fen, result, positions };
    proof {
        assert(read_from(game, rec));
        assert forall|i: int| 0 <= i < rec.positions@.len() implies (viri_boards(
            game.initial,
            game_moves(game),
            i as nat,
        ) matches Some(b) && (#[trigger] rec.positions@[i]).fen@ == viri_board_text(b) && rec.positions@[i].ply == (
        #[verifier::truncate] (viri_board_plies(b) as u16))) by {
            assert(rec.positions@[i] == positions@[i]);
            assert(viri_boards(game.initial, moves, i as nat) is Some);
        }
        assert(read_boards(game, rec));
    }
    Ok(rec)
}

/// Whether every castling right of a board has its rook on the standard
/// corner square (h1, a1, h8, a8).
pub open spec fn standard_castling_spec(r: ViriCastling) -> bool {
    (r.wk is None || r.wk == Some(H1)) && (r.wq is None || r.wq == Some(A1)) && (r.bk is None || r.bk == Some(H8))
        && (r.bq is None || r.bq == Some(A8))
}

pub fn standard_castling(r: ViriCastling) -> (ok: bool)
    ensures
        ok == standard_castling_spec(r),
{
    (r.wk.is_none() || r.wk == Some(H1)) && (r.wq.is_none() || r.wq == Some(A1)) && (r.bk.is_none() || r.bk
        == Some(H8)) && (r.bq.is_none() || r.bq == Some(A8))
}

/// Refuses a board whose castling rights are not those of standard chess
/// (Chess960 rights), which viriformat output does not support here; the
/// error holds the rights as viriformat displays them.
pub fn validate_standard_castling(board: &Board) -> (r: Result<(), Error>)
    ensures
        standard_castling_spec(viri_board_rights(*board)) ==> r is Ok,
        !standard_castling_spec(viri_board_rights(*board)) ==> (r matches Err(Error::UnsupportedCastling(t)) && t@
            == viri_rights_text(*board)),
{
    let rights = viri_castling_rights(board);
    if standard_castling(rights) {
        return Ok(());
    }
    Err(Error::UnsupportedCastling(viri_castling_text(board)))
}

/// The packed viriformat result of a game result.
pub open spec fn packed_of(result: GameResult) -> u8 {
    match result {
        GameResult::WhiteWin => 2,
        GameResult::Draw => 1,
        GameResult::BlackWin => 0,
    }
}

/// A move of a viriformat game written for a position: the position's
/// evaluation, and the move read from its UCI text against some board (see
/// `uci_to_viri_move`).
pub open spec fn written_move(p: PositionMoveEval, m: (ViriMove, i16)) -> bool {
    let b = encode_utf8(p.uci@);
    &&& m.1 == p.score
    &&& uci_squares(b) matches Ok((from, to))
    &&& uci_promotion(b) matches Ok(promotion)
    &&& exists|moved: Piece, captured: Option<Piece>, rights: ViriCastling, ep: Option<u8>|
        m.0 == #[trigger] viri_move_spec(from, to, promotion, moved, captured, rights, ep)
}

/// What a viriformat game written from a record holds: the record's result
/// and one written move per position, in order.
pub open spec fn written_from(record: GameRecord, game: Game) -> bool {
    let moves = viri_game_moves(game);
    &&& viri_game_packed_outcome(game) == packed_of(record.result)
    &&& moves.len() == record.positions@.len()
    &&& forall|i: int| 0 <= i < moves.len() ==> #[trigger] written_move(record.positions@[i], moves[i])
}

/// The viriformat move that a UCI text names on a board, when the text
/// reads as a move and the board has a piece on its source square (see
/// `uci_to_viri_move`).
pub open spec fn viri_uci_move(board: Board, uci: Seq<char>) -> Option<ViriMove> {
    let b = encode_utf8(uci);
    match uci_squares(b) {
        Ok((from, to)) => match viri_board_piece(board, from) {
            Some(moved) => match uci_promotion(b) {
                Ok(promotion) => Some(
                    viri_move_spec(
                        from,
                        to,
                        promotion,
                        piece_of(moved),
                        captured_of(viri_board_piece(board, to)),
                        viri_board_rights(board),
                        viri_board_ep(board),
                    ),
                ),
                Err(_) => None,
            },
            None => None,
        },
        Err(_) => None,
    }
}

/// The board after the first `k` moves of a record, each read from its UCI
/// text against the board before it, when each reads, can be handed to
/// viriformat and is legal.
pub open spec fn viri_record_boards(board: Board, ucis: Seq<Seq<char>>, k: nat) -> Option<Board>
    decreases k,
{
    if k == 0 {
        Some(board)
    } else {
        match viri_record_boards(board, ucis, (k - 1) as nat) {
            Some(b) => match viri_uci_move(b, ucis[k - 1]) {
                Some(m) => if viri_move_safe(b, m) && viri_move_legal(b, m) {
                    Some(viri_board_after(b, m))
                } else {
                    None
                },
                None => None,
            },
            None => None,
        }
    }
}

proof fn lemma_record_boards_prefix(board: Board, ucis: Seq<Seq<char>>, i: nat, j: nat)
    requires
        i <= j,
        viri_record_boards(board, ucis, j) is Some,
    ensures
        viri_record_boards(board, ucis, i) is Some,
    decreases j - i,
{
    if i < j {
        lemma_record_boards_prefix(board, ucis, i, (j - 1) as nat);
    }
}

/// A move that `uci_to_viri_move` reads is the one `viri_uci_move` names,
/// and written with an evaluation it is a written move.
proof fn lemma_read_move(board: Board, p: PositionMoveEval, b: Seq<u8>, mv: ViriMove)
    requires
        b == encode_utf8(p.uci@),
        uci_to_viri_move_outcome(board, p.uci@, b, Ok::<ViriMove, Error>(mv)),
    ensures
        viri_uci_move(board, p.uci@) == Some(mv),
        written_move(p, (mv, p.score)),
{
    let (from, to) = uci_squares(b)->Ok_0;
    let moved = viri_board_piece(board, from)->Some_0;
    let promotion = uci_promotion(b)->Ok_0;
    let captured = captured_of(viri_board_piece(board, to));
    let rights = viri_board_rights(board);
    let ep = viri_board_ep(board);
    assert(mv == viri_move_spec(from, to, promotion, piece_of(moved), captured, rights, ep));
}

/// How many of the first `k` moves of a record are read and played in turn
/// before one is not: the index of the first that is not, or `k`.
pub open spec fn record_played(board: Board, ucis: Seq<Seq<char>>, k: nat) -> nat
    decreases k,
{
    if k == 0 || viri_record_boards(board, ucis, k) is Some {
        k
    } else {
        record_played(board, ucis, (k - 1) as nat)
    }
}

proof fn lemma_record_played(board: Board, ucis: Seq<Seq<char>>, i: nat, p: nat)
    requires
        i < p,
        viri_record_boards(board, ucis, i) is Some,
        viri_record_boards(board, ucis, i + 1) is None,
    ensures
        record_played(board, ucis, p) == i,
    decreases p - i,
{
    if p > i + 1 {
        if viri_record_boards(board, ucis, p) is Some {
            lemma_record_boards_prefix(board, ucis, i + 1, p);
        }
        lemma_record_played(board, ucis, i, (p - 1) as nat);
        assert(record_played(board, ucis, p) == record_played(board, ucis, (p - 1) as nat));
    } else {
        assert(record_played(board, ucis, p) == record_played(board, ucis, i));
    }
}

/// The error of the first move of a record that cannot be written, played
/// from `board`, the board before it: the error of reading its UCI text
/// against the board (see `uci_to_viri_move`) when that fails, else the
/// error for a move that cannot be played.
pub open spec fn record_move_error(board: Board, uci: Seq<char>, e: Error) -> bool {
    if viri_uci_move(board, uci) is None {
        uci_to_viri_move_outcome(board, uci, encode_utf8(uci), Err::<ViriMove, Error>(e))
    } else {
        e matches Error::InvalidViriformat(m) && m@ == "cannot replay move while writing viriformat output"@
    }
}

/// Whether a record can be written to viriformat: its FEN is read into a
/// board (see `viri_fen_safe`), whose castling rights are those of
/// standard chess and which fits a packed board (see
/// `viri_board_packable`), and every move reads and is legal in turn.
pub open spec fn record_writable(record: GameRecord) -> bool {
    &&& viri_fen_safe(record.initial_fen@)
    &&& viri_fen_board(record.initial_fen@) matches Ok(b)
    &&& standard_castling_spec(viri_board_rights(b))
    &&& viri_board_packable(b)
    &&& viri_record_boards(b, ucis_of(record), record.positions@.len()) is Some
}

/// Builds the viriformat game of a game record: the board from its FEN,
/// its result as an adjudicated outcome, and each move read against the
/// board (see `uci_to_viri_move`) and played on it.
#[verifier::rlimit(100)]
pub fn record_to_game(record: &GameRecord) -> (r: Result<Game, Error>)
    requires
        forall|i: int| 0 <= i < record.positions@.len() ==> viri_uci_readable(
            encode_utf8((#[trigger] record.positions@[i]).uci@),
        ),
    ensures
        r is Ok <==> record_writable(*record),
        r matches Ok(game) ==> {
            &&& written_from(*record, game)
            &&& viri_fen_board(record.initial_fen@) matches Ok(b)
            &&& forall|i: int|
                0 <= i < record.positions@.len() ==> (viri_record_boards(b, ucis_of(*record), i as nat) matches Some(
                    bi,
                ) && viri_uci_move(bi, (#[trigger] record.positions@[i]).uci@) == Some(viri_game_moves(game)[i].0))
        },
        !viri_fen_safe(record.initial_fen@) ==> (r matches Err(Error::ViriformatBoard(m)) && m@
            == "FEN string is outside what the board parser reads: "@ + record.initial_fen@),
        viri_fen_safe(record.initial_fen@) ==> match viri_fen_board(record.initial_fen@) {
            Err(t) => r matches Err(Error::ViriformatBoard(m)) && m@ == t,
            Ok(b) => if !standard_castling_spec(viri_board_rights(b)) {
                r matches Err(Error::UnsupportedCastling(m)) && m@ == viri_rights_text(b)
            } else if !viri_board_packable(b) {
                r matches Err(Error::ViriformatBoard(m)) && m@ == "board does not fit a packed viriformat board: "@
                    + record.initial_fen@
            } else {
                let j = record_played(b, ucis_of(*record), record.positions@.len());
                r matches Err(e) ==> (viri_record_boards(b, ucis_of(*record), j) matches Some(bj) && record_move_error(
                    bj,
                    ucis_of(*record)[j as int],
                    e,
                ))
            },
        },
{
    proof {
        reveal_strlit("FEN string is outside what the board parser reads: ");
        reveal_strlit("board does not fit a packed viriformat board: ");
    }
    if !fen_is_safe(record.initial_fen.as_str()) {
        return Err(
            Error::ViriformatBoard(
                concat("FEN string is outside what the board parser reads: ", record.initial_fen.as_str()),
            ),
        );
    }
    let mut board = match viri_board_from_fen(record.initial_fen.as_str()) {
        Ok(board) => board,
        Err(text) => return Err(Error::ViriformatBoard(text)),
    };
    let ghost start = board;
    let ghost ucis = ucis_of(*record);
    validate_standard_castling(&board)?;
    if !board_is_packable(&board) {
        return Err(
            Error::ViriformatBoard(
                concat("board does not fit a packed viriformat board: ", record.initial_fen.as_str()),
            ),
        );
    }
    let mut game = viri_game_new(&board);
    viri_game_set_outcome(&mut game, game_result_to_viri_outcome(record.result));
    let n = record.positions.len();
    let mut i: usize = 0;
    while i < n
        invariant
            n == record.positions@.len(),
            ucis == ucis_of(*record),
            ucis.len() == n,
            i <= n,
            viri_fen_board(record.initial_fen@) == Ok::<Board, Seq<char>>(start),
            viri_fen_safe(record.initial_fen@),
            standard_castling_spec(viri_board_rights(start)),
            viri_board_packable(start),
            forall|j: int| 0 <= j < record.positions@.len() ==> viri_uci_readable(
                encode_utf8((#[trigger] record.positions@[j]).uci@),
            ),
            viri_record_boards(start, ucis, i as nat) == Some(board),
            viri_game_packed_outcome(game) == packed_of(record.result),
            viri_game_moves(game).len() == i,
            forall|j: int| 0 <= j < i ==> #[trigger] written_move(record.positions@[j], viri_game_moves(game)[j]),
            forall|j: int|
                0 <= j < i ==> (viri_record_boards(start, ucis, j as nat) matches Some(bj) && viri_uci_move(
                    bj,
                    (#[trigger] record.positions@[j]).uci@,
                ) == Some(viri_game_moves(game)[j].0)),
        decreases n - i,
    {
        let item = &record.positions[i];
        assert(viri_uci_readable(encode_utf8(record.positions@[i as int].uci@)));
        assert(ucis[i as int] == item.uci@);
        let ghost board_now = board;
        let mv = match uci_to_viri_move(item.uci.as_str(), &board) {
            Ok(m) => m,
            Err(e) => {
                proof {
                    assert(viri_record_boards(start, ucis, (i + 1) as nat) is None);
                    if viri_record_boards(start, ucis, n as nat) is Some {
                        lemma_record_boards_prefix(start, ucis, (i + 1) as nat, n as nat);
                    }
                    lemma_record_played(start, ucis, i as nat, n as nat);
                    assert(viri_uci_move(board_now, ucis[i as int]) is None);
                }
                return Err(e);
            },
        };
        proof {
            lemma_read_move(board_now, record.positions@[i as int], encode_utf8(item.uci@), mv);
        }
        if !move_is_safe(&board, mv) {
            proof {
                assert(viri_record_boards(start, ucis, (i + 1) as nat) is None);
                if viri_record_boards(start, ucis, n as nat) is Some {
                    lemma_record_boards_prefix(start, ucis, (i + 1) as nat, n as nat);
                }
                lemma_record_played(start, ucis, i as nat, n as nat);
            }
            return Err(replay_error());
        }
        let ghost before = viri_game_moves(game);
        let ghost board_before = board;
        viri_game_add_move(&mut game, mv, item.score);
        proof {
            assert(viri_game_moves(game)[i as int] == (mv, item.score));
            assert forall|j: int| 0 <= j < i + 1 implies #[trigger] written_move(
                record.positions@[j],
                viri_game_moves(game)[j],
            ) by {
                if j < i {
                    assert(viri_game_moves(game)[j] == before[j]);
                }
            }
            assert forall|j: int| 0 <= j < i + 1 implies (viri_record_boards(start, ucis, j as nat) matches Some(bj)
                && viri_uci_move(bj, (#[trigger] record.positions@[j]).uci@) == Some(
                viri_game_moves(game)[j].0,
            )) by {
                if j < i {
                    assert(viri_game_moves(game)[j] == before[j]);
                }
            }
        }
        if !viri_make_move(&mut board, mv) {
            proof {
                assert(viri_record_boards(start, ucis, (i + 1) as nat) is None);
                if viri_record_boards(start, ucis, n as nat) is Some {
                    lemma_record_boards_prefix(start, ucis, (i + 1) as nat, n as nat);
                }
                lemma_record_played(start, ucis, i as nat, n as nat);
            }
            return Err(replay_error());
        }
        proof {
            assert(viri_record_boards(start, ucis, (i + 1) as nat) == Some(board));
        }
        i += 1;
    }
    Ok(game)
}

/// A game record written to viriformat and read back keeps its result and,
/// for each position, its move's UCI text and its evaluation, when every
/// move is canonical UCI text (see `canonical_uci`) and the game read holds
/// the moves and the packed result of the game written. (The FENs and
/// plies read back come from the viriformat board.)
pub proof fn law_viriformat_roundtrip(record: GameRecord, written: Game, read: ViriGameData, back: GameRecord)
    requires
        written_from(record, written),
        read.moves@ == viri_game_moves(written),
        read.packed_result == viri_game_packed_outcome(written),
        read_from(read, back),
        forall|i: int|
            0 <= i < record.positions@.len() ==> canonical_uci(encode_utf8((#[trigger] record.positions@[i]).uci@)),
    ensures
        back.result == record.result,
        back.positions@.len() == record.positions@.len(),
        forall|i: int|
            0 <= i < back.positions@.len() ==> {
                &&& (#[trigger] back.positions@[i]).uci@ == record.positions@[i].uci@
                &&& back.positions@[i].score == record.positions@[i].score
            },
{
    assert forall|i: int| 0 <= i < back.positions@.len() implies {
        &&& (#[trigger] back.positions@[i]).uci@ == record.positions@[i].uci@
        &&& back.positions@[i].score == record.positions@[i].score
    } by {
        let p = record.positions@[i];
        let m = viri_game_moves(written)[i];
        assert(written_move(p, m));
        assert(canonical_uci(encode_utf8(p.uci@)));
        let b = encode_utf8(p.uci@);
        let squares = uci_squares(b)->Ok_0;
        let promotion = uci_promotion(b)->Ok_0;
        let (moved, captured, rights, ep) = choose|moved: Piece, captured: Option<Piece>, rights: ViriCastling, ep: Option<u8>|
            m.0 == #[trigger] viri_move_spec(squares.0, squares.1, promotion, moved, captured, rights, ep);
        law_viri_move_keeps_uci(p.uci@, moved, captured, rights, ep);
    }
}

fn replay_error() -> (e: Error)
    ensures
        e matches Error::InvalidViriformat(m) && m@ == "cannot replay move while writing viriformat output"@,
{
    proof {
        reveal_strlit("cannot replay move while writing viriformat output");
    }
    Error::InvalidViriformat(String::from_str("cannot replay move while writing viriformat output"))
}

} // verus!
