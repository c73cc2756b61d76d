//! Mappings between the game model and the move, result and score
//! conventions of the binpack and viriformat encodings.
use vstd::prelude::*;
use vstd::string::*;
use vstd::utf8::{decode_utf8, is_char_boundary};

use crate::chess::{
    no_piece, parse_square, parse_square_spec, square_name, Color, MoveType, Piece, PieceType, SfCastling,
    SfMove, DrawType, GameOutcome, WinType, MoveFlags, ViriCastling, ViriMove, ViriMoveKind, A1, A8, C1, C8, E1, E8, G1, G8, H1, H8,
};
use crate::error::Error;
use crate::sf::{sf_board_ep, sf_board_piece, sf_board_right, sf_ep_square, sf_has_castling_right, sf_piece_at};
use crate::viri::{
    viri_board_ep, viri_board_piece, viri_board_rights, viri_castling_rights, viri_ep_square, viri_piece_at,
};
use crate::model::GameResult;
use crate::text::{concat, decimal, push_char, push_decimal_i64, split_whitespace, split_whitespace_spec, str_eq};

verus! {

broadcast use vstd::string::group_string_axioms;

/// The game result of a binpack entry, whose result field is 1, 0 or -1
/// for a win, draw or loss of the side to move.
pub open spec fn sf_result_spec(result: i16, side_to_move: Color) -> Option<GameResult> {
    if result == 0 {
        Some(GameResult::Draw)
    } else if (result == 1 && side_to_move == Color::White) || (result == -1 && side_to_move == Color::Black) {
        Some(GameResult::WhiteWin)
    } else if (result == -1 && side_to_move == Color::White) || (result == 1 && side_to_move == Color::Black) {
        Some(GameResult::BlackWin)
    } else {
        None
    }
}

/// The binpack result field (relative to the side to move) of a game result.
pub open spec fn sf_result_of(result: GameResult, side_to_move: Color) -> int {
    match result {
        GameResult::Draw => 0,
        GameResult::WhiteWin => if side_to_move == Color::White { 1 } else { -1 },
        GameResult::BlackWin => if side_to_move == Color::Black { 1 } else { -1 },
    }
}

/// Reads the game result from a binpack entry's result field.
pub fn sf_result_to_game_result(result: i16, side_to_move: Color) -> (r: Result<GameResult, Error>)
    ensures
        match sf_result_spec(result, side_to_move) {
            Some(g) => r == Ok::<GameResult, Error>(g),
            None => r matches Err(Error::InvalidViriformat(m))
                && m@ == "unsupported sfbinpack result value: "@ + decimal(result as int),
        },
{
    match (result, side_to_move) {
        (0, _) => Ok(GameResult::Draw),
        (1, Color::White) | (-1, Color::Black) => Ok(GameResult::WhiteWin),
        (-1, Color::White) | (1, Color::Black) => Ok(GameResult::BlackWin),
        _ => {
            let mut m = String::from_str("unsupported sfbinpack result value: ");
            proof {
                reveal_strlit("unsupported sfbinpack result value: ");
            }
            push_decimal_i64(&mut m, result as i64);
            Err(Error::InvalidViriformat(m))
        },
    }
}

/// The binpack result field of a game result, relative to the side to move.
pub fn game_result_to_sf_result(result: GameResult, side_to_move: Color) -> (r: i16)
    ensures
        r == sf_result_of(result, side_to_move),
{
    match (result, side_to_move) {
        (GameResult::Draw, _) => 0,
        (GameResult::WhiteWin, Color::White) | (GameResult::BlackWin, Color::Black) => 1,
        (GameResult::WhiteWin, Color::Black) | (GameResult::BlackWin, Color::White) => -1,
    }
}

/// Writes a square name, such as `e4`.
pub fn push_square_name(s: &mut String, sq: u8)
    requires
        sq < 64,
    ensures
        final(s)@ == old(s)@ + square_name(sq as int),
{
    let file: u8 = sq % 8;
    let rank: u8 = sq / 8;
    push_char(s, (97 + file) as char);
    push_char(s, (49 + rank) as char);
    assert(final(s)@ =~= old(s)@ + square_name(sq as int));
}

/// The UCI text of a binpack move, as the binpack library writes it:
/// castling is shown by the king's destination rather than the rook square.
pub fn sf_move_to_uci(mv: SfMove) -> (s: String)
    requires
        mv.printable(),
    ensures
        s@ == mv.uci_text(),
{
    let mut s = String::new();
    push_square_name(&mut s, mv.from);
    match mv.move_type {
        MoveType::Castle => {
            let dest: u8 = if mv.to % 8 == 7 {
                if mv.from / 8 == 0 { G1 } else { G8 }
            } else {
                if mv.from / 8 == 0 { C1 } else { C8 }
            };
            push_square_name(&mut s, dest);
        },
        MoveType::Promotion => {
            push_square_name(&mut s, mv.to);
            let c = match mv.promoted_piece.piece_type {
                PieceType::Queen => 'q',
                PieceType::Rook => 'r',
                PieceType::Bishop => 'b',
                _ => 'n',
            };
            push_char(&mut s, c);
        },
        _ => {
            push_square_name(&mut s, mv.to);
        },
    }
    assert(s@ =~= mv.uci_text());
    s
}

impl SfMove {
    /// The UCI text of the move (see `sf_move_to_uci`).
    pub fn as_uci(&self) -> (s: String)
        requires
            self.printable(),
        ensures
            s@ == self.uci_text(),
    {
        sf_move_to_uci(*self)
    }
}

/// The promotion piece named by a UCI promotion letter.
pub open spec fn promotion_of(b: u8) -> Option<PieceType> {
    if b == 110 {
        Some(PieceType::Knight)
    } else if b == 98 {
        Some(PieceType::Bishop)
    } else if b == 114 {
        Some(PieceType::Rook)
    } else if b == 113 {
        Some(PieceType::Queen)
    } else {
        None
    }
}

fn parse_promotion(b: u8) -> (r: Option<PieceType>)
    ensures
        r == promotion_of(b),
{
    if b == 110 {
        Some(PieceType::Knight)
    } else if b == 98 {
        Some(PieceType::Bishop)
    } else if b == 114 {
        Some(PieceType::Rook)
    } else if b == 113 {
        Some(PieceType::Queen)
    } else {
        None
    }
}

/// Why a UCI move could not be read.
#[derive(Clone, Copy, Debug, PartialEq, Eq, Structural)]
pub enum UciFault {
    TooShort,
    BadFrom,
    BadTo,
    NoPiece,
    BadPromotion,
}

/// The squares of a UCI move, read from its bytes.
pub open spec fn uci_squares(b: Seq<u8>) -> Result<(u8, u8), UciFault> {
    if b.len() < 4 {
        Err(UciFault::TooShort)
    } else {
        match parse_square_spec(b[0], b[1]) {
            None => Err(UciFault::BadFrom),
            Some(from) => match parse_square_spec(b[2], b[3]) {
                None => Err(UciFault::BadTo),
                Some(to) => Ok((from, to)),
            },
        }
    }
}

/// The promotion a UCI move asks for: a fifth byte, when the text has
/// exactly five bytes.
pub open spec fn uci_promotion(b: Seq<u8>) -> Result<Option<PieceType>, UciFault> {
    if b.len() == 5 {
        match promotion_of(b[4]) {
            Some(t) => Ok(Some(t)),
            None => Err(UciFault::BadPromotion),
        }
    } else {
        Ok(None)
    }
}

/// Whether a UCI move can be read into a binpack move: its two squares are
/// taken as two-byte slices of single-byte (ASCII) characters; any other
/// first four bytes make the slicing or the binpack square parser panic.
pub open spec fn sf_uci_readable(b: Seq<u8>) -> bool {
    b.len() >= 4 ==> (b[0] < 128 && b[1] < 128 && b[2] < 128 && b[3] < 128)
}

/// Whether a king move from `from` to `to` is castling with a right held.
pub open spec fn is_sf_castle_spec(piece: Piece, from: u8, to: u8, rights: SfCastling) -> bool {
    piece.piece_type == PieceType::King && (
        (piece.color == Color::White && from == E1 && to == G1 && rights.white_king_side)
        || (piece.color == Color::White && from == E1 && to == C1 && rights.white_queen_side)
        || (piece.color == Color::Black && from == E8 && to == G8 && rights.black_king_side)
        || (piece.color == Color::Black && from == E8 && to == C8 && rights.black_queen_side))
}

/// The rook square that a king's castling destination stands for.
pub open spec fn castle_rook_square(to: u8) -> u8 {
    if to == G1 {
        H1
    } else if to == C1 {
        A1
    } else if to == G8 {
        H8
    } else if to == C8 {
        A8
    } else {
        to
    }
}

/// The binpack move for a UCI move from `from` to `to`, given the piece
/// on each square, the castling rights and the en passant square (64 when
/// there is none).
pub open spec fn sf_move_spec(
    from: u8,
    to: u8,
    promotion: Option<PieceType>,
    piece: Piece,
    target: Piece,
    rights: SfCastling,
    ep: u32,
) -> SfMove {
    let move_type = if promotion is Some {
        MoveType::Promotion
    } else if is_sf_castle_spec(piece, from, to, rights) {
        MoveType::Castle
    } else if piece.piece_type == PieceType::Pawn && to as u32 == ep && target == no_piece() {
        MoveType::EnPassant
    } else {
        MoveType::Normal
    };
    SfMove {
        from,
        to: if move_type == MoveType::Castle { castle_rook_square(to) } else { to },
        move_type,
        promoted_piece: match promotion {
            Some(t) => Piece { piece_type: t, color: piece.color },
            None => no_piece(),
        },
    }
}

fn is_sf_castle(piece: Piece, from: u8, to: u8, rights: SfCastling) -> (r: bool)
    ensures
        r == is_sf_castle_spec(piece, from, to, rights),
{
    match piece.piece_type {
        PieceType::King => {},
        _ => return false,
    }
    match piece.color {
        Color::White => (from == E1 && to == G1 && rights.white_king_side) || (from == E1 && to == C1
            && rights.white_queen_side),
        Color::Black => (from == E8 && to == G8 && rights.black_king_side) || (from == E8 && to == C8
            && rights.black_queen_side),
    }
}

/// Chooses the binpack move for a UCI move from the pieces on its squares,
/// the castling rights and the en passant square of the position.
pub fn sf_move_from_parts(
    from: u8,
    to: u8,
    promotion: Option<PieceType>,
    piece: Piece,
    target: Piece,
    rights: SfCastling,
    ep: u32,
) -> (m: SfMove)
    ensures
        m == sf_move_spec(from, to, promotion, piece, target, rights, ep),
{
    let is_pawn = match piece.piece_type {
        PieceType::Pawn => true,
        _ => false,
    };
    let target_empty = match (target.piece_type, target.color) {
        (PieceType::Empty, Color::White) => true,
        _ => false,
    };
    let move_type = if promotion.is_some() {
        MoveType::Promotion
    } else if is_sf_castle(piece, from, to, rights) {
        MoveType::Castle
    } else if is_pawn && to as u32 == ep && target_empty {
        MoveType::EnPassant
    } else {
        MoveType::Normal
    };
    let dest = match move_type {
        MoveType::Castle => if to == G1 {
            H1
        } else if to == C1 {
            A1
        } else if to == G8 {
            H8
        } else if to == C8 {
            A8
        } else {
            to
        },
        _ => to,
    };
    let promoted_piece = match promotion {
        Some(t) => Piece::new(t, piece.color),
        None => Piece::none(),
    };
    SfMove { from, to: dest, move_type, promoted_piece }
}

/// The two characters that the bytes `b[i]`, `b[i + 1]` encode.
pub open spec fn square_text(b: Seq<u8>, i: int) -> Seq<char> {
    if b[i] < 128 && b[i + 1] < 128 {
        seq![b[i] as char, b[i + 1] as char]
    } else {
        decode_utf8(b.subrange(i, i + 2))
    }
}

/// The message of the error that a UCI move `uci` (bytes `b`) gets.
pub open spec fn uci_fault_message(fault: UciFault, uci: Seq<char>, b: Seq<u8>) -> Seq<char> {
    match fault {
        UciFault::TooShort => "invalid UCI move: "@ + uci,
        UciFault::BadFrom => "invalid square: "@ + square_text(b, 0),
        UciFault::BadTo => "invalid square: "@ + square_text(b, 2),
        UciFault::NoPiece => "no piece on source square for move "@ + uci,
        UciFault::BadPromotion => "invalid promotion piece: "@ + seq![b[4] as char],
    }
}

/// `r` is the error for `fault` on the UCI move `uci`.
pub open spec fn is_uci_error<T>(r: Result<T, Error>, fault: UciFault, uci: Seq<char>, b: Seq<u8>) -> bool {
    r matches Err(Error::InvalidViriformat(m)) && m@ == uci_fault_message(fault, uci, b)
}

fn uci_error(fault: UciFault, uci: &str) -> (e: Error)
    requires
        fault == UciFault::TooShort || fault == UciFault::NoPiece,
    ensures
        e matches Error::InvalidViriformat(m) && m@ == uci_fault_message(fault, uci@, uci.spec_bytes()),
{
    proof {
        reveal_strlit("invalid UCI move: ");
        reveal_strlit("no piece on source square for move ");
    }
    match fault {
        UciFault::TooShort => Error::InvalidViriformat(concat("invalid UCI move: ", uci)),
        _ => Error::InvalidViriformat(concat("no piece on source square for move ", uci)),
    }
}

/// The error for two ASCII bytes that name no square.
fn ascii_square_error(b0: u8, b1: u8) -> (e: Error)
    ensures
        e matches Error::InvalidViriformat(m) && m@ == "invalid square: "@ + seq![b0 as char, b1 as char],
{
    let mut m = String::from_str("invalid square: ");
    proof {
        reveal_strlit("invalid square: ");
    }
    push_char(&mut m, b0 as char);
    push_char(&mut m, b1 as char);
    assert(m@ =~= "invalid square: "@ + seq![b0 as char, b1 as char]);
    Error::InvalidViriformat(m)
}

/// The error for a promotion byte that names no promotion piece.
fn promotion_error(b: u8) -> (e: Error)
    ensures
        e matches Error::InvalidViriformat(m) && m@ == "invalid promotion piece: "@ + seq![b as char],
{
    let mut m = String::from_str("invalid promotion piece: ");
    proof {
        reveal_strlit("invalid promotion piece: ");
    }
    push_char(&mut m, b as char);
    Error::InvalidViriformat(m)
}

/// The piece of a type ordinal and a colour ordinal.
pub open spec fn piece_of(code: (u8, u8)) -> Piece {
    Piece { piece_type: PieceType::spec_from_ordinal(code.0), color: Color::spec_from_ordinal(code.1) }
}

/// The castling rights of a binpack position.
pub open spec fn sf_rights_of(position: sfbinpack::chess::position::Position) -> SfCastling {
    SfCastling {
        white_king_side: sf_board_right(position, true, true),
        white_queen_side: sf_board_right(position, true, false),
        black_king_side: sf_board_right(position, false, true),
        black_queen_side: sf_board_right(position, false, false),
    }
}

/// The binpack move for a UCI move from `from` to `to` in a binpack
/// position: its kind read from the pieces on the two squares, the castling
/// rights and the en passant square of the position.
pub open spec fn sf_position_move(
    position: sfbinpack::chess::position::Position,
    from: u8,
    to: u8,
    promotion: Option<PieceType>,
) -> SfMove {
    sf_move_spec(
        from,
        to,
        promotion,
        piece_of(sf_board_piece(position, from)),
        piece_of(sf_board_piece(position, to)),
        sf_rights_of(position),
        sf_board_ep(position),
    )
}

/// What reading `uci` (bytes `b`) into a binpack move in `position` gives.
pub open spec fn uci_to_sf_move_outcome(
    position: sfbinpack::chess::position::Position,
    uci: Seq<char>,
    b: Seq<u8>,
    r: Result<SfMove, Error>,
) -> bool {
    match uci_squares(b) {
        Err(fault) => is_uci_error(r, fault, uci, b),
        Ok((from, to)) => match uci_promotion(b) {
            Err(fault) => is_uci_error(r, fault, uci, b),
            Ok(promotion) => r == Ok::<SfMove, Error>(sf_position_move(position, from, to, promotion)),
        },
    }
}

/// Reads a UCI move played in a binpack position into a binpack move.
///
/// The move type is chosen from the pieces on the two squares, the castling
/// rights and the en passant square of `position` (see `sf_move_from_parts`);
/// those are read from the binpack library.
pub fn uci_to_sf_move(uci: &str, position: &sfbinpack::chess::position::Position) -> (r: Result<SfMove, Error>)
    requires
        sf_uci_readable(uci.spec_bytes()),
    ensures
        uci_to_sf_move_outcome(*position, uci@, uci.spec_bytes(), r),
{
    let bytes = uci.as_bytes();
    let n = bytes.len();
    if n < 4 {
        return Err(uci_error(UciFault::TooShort, uci));
    }
    let from = match parse_square(bytes[0], bytes[1]) {
        Some(sq) => sq,
        None => return Err(ascii_square_error(bytes[0], bytes[1])),
    };
    let to = match parse_square(bytes[2], bytes[3]) {
        Some(sq) => sq,
        None => return Err(ascii_square_error(bytes[2], bytes[3])),
    };
    let (piece_type, piece_color) = sf_piece_at(position, from);
    let piece = Piece::new(PieceType::from_ordinal(piece_type), Color::from_ordinal(piece_color));
    let (target_type, target_color) = sf_piece_at(position, to);
    let target = Piece::new(PieceType::from_ordinal(target_type), Color::from_ordinal(target_color));
    let promotion = if n == 5 {
        match parse_promotion(bytes[4]) {
            Some(t) => Some(t),
            None => return Err(promotion_error(bytes[4])),
        }
    } else {
        None
    };
    let rights = SfCastling {
        white_king_side: sf_has_castling_right(position, true, true),
        white_queen_side: sf_has_castling_right(position, true, false),
        black_king_side: sf_has_castling_right(position, false, true),
        black_queen_side: sf_has_castling_right(position, false, false),
    };
    let ep = sf_ep_square(position);
    let mv = sf_move_from_parts(from, to, promotion, piece, target, rights, ep);
    assert(mv == sf_move_spec(from, to, promotion, piece, target, rights, ep));
    Ok(mv)
}

/// Whether a UCI move can be read into a viriformat move: its text is
/// sliced at its second and fourth byte, which must be character
/// boundaries.
pub open spec fn viri_uci_readable(b: Seq<u8>) -> bool {
    b.len() >= 4 ==> is_char_boundary(b, 2) && is_char_boundary(b, 4)
}

/// Whether a king move from `from` to `to` is castling with the rook of
/// a right held on its standard square.
pub open spec fn is_viri_castle_spec(from: u8, to: u8, rights: ViriCastling) -> bool {
    (from == E1 && to == G1 && rights.wk == Some(H1))
    || (from == E1 && to == C1 && rights.wq == Some(A1))
    || (from == E8 && to == G8 && rights.bk == Some(H8))
    || (from == E8 && to == C8 && rights.bq == Some(A8))
}

/// The viriformat move for a UCI move from `from` to `to`, given the piece
/// that moves, the piece on the destination, the castling rights and the
/// en passant square of the board.
pub open spec fn viri_move_spec(
    from: u8,
    to: u8,
    promotion: Option<PieceType>,
    moved: Piece,
    captured: Option<Piece>,
    rights: ViriCastling,
    ep: Option<u8>,
) -> ViriMove {
    match promotion {
        Some(t) => ViriMove { from, to, kind: ViriMoveKind::Promotion(t) },
        None => if moved.piece_type == PieceType::King && is_viri_castle_spec(from, to, rights) {
            ViriMove { from, to: castle_rook_square(to), kind: ViriMoveKind::Castle }
        } else if moved.piece_type == PieceType::Pawn && ep == Some(to) && captured is None {
            ViriMove { from, to, kind: ViriMoveKind::EnPassant }
        } else {
            ViriMove { from, to, kind: ViriMoveKind::Normal }
        },
    }
}

/// Chooses the viriformat move for a UCI move from the pieces on its
/// squares, the castling rights and the en passant square of the board.
pub fn viri_move_from_parts(
    from: u8,
    to: u8,
    promotion: Option<PieceType>,
    moved: Piece,
    captured: Option<Piece>,
    rights: ViriCastling,
    ep: Option<u8>,
) -> (m: ViriMove)
    ensures
        m == viri_move_spec(from, to, promotion, moved, captured, rights, ep),
{
    if let Some(t) = promotion {
        return ViriMove::new_with_promo(from, to, t);
    }
    let is_king = match moved.piece_type {
        PieceType::King => true,
        _ => false,
    };
    let is_pawn = match moved.piece_type {
        PieceType::Pawn => true,
        _ => false,
    };
    if is_king {
        let is_castle = (from == E1 && to == G1 && rights.wk == Some(H1)) || (from == E1 && to == C1
            && rights.wq == Some(A1)) || (from == E8 && to == G8 && rights.bk == Some(H8)) || (from == E8
            && to == C8 && rights.bq == Some(A8));
        if is_castle {
            let rook = if to == G1 {
                H1
            } else if to == C1 {
                A1
            } else if to == G8 {
                H8
            } else {
                A8
            };
            return ViriMove::new_with_flags(from, rook, MoveFlags::Castle);
        }
    }
    if is_pawn && ep == Some(to) && captured.is_none() {
        return ViriMove::new_with_flags(from, to, MoveFlags::EnPassant);
    }
    ViriMove::new(from, to)
}

/// The error for the two bytes at `i` of `uci`, which name no square.
fn square_error(uci: &str, i: usize) -> (e: Error)
    requires
        i == 0 || i == 2,
        uci.spec_bytes().len() >= 4,
        viri_uci_readable(uci.spec_bytes()),
    ensures
        e matches Error::InvalidViriformat(m) && m@ == "invalid square: "@ + square_text(uci.spec_bytes(), i as int),
{
    broadcast use vstd::utf8::group_utf8_lib;

    let bytes = uci.as_bytes();
    if bytes[i] < 128 && bytes[i + 1] < 128 {
        return ascii_square_error(bytes[i], bytes[i + 1]);
    }
    let (head, rest) = uci.split_at(2);
    proof {
        reveal_strlit("invalid square: ");
    }
    if i == 0 {
        assert(decode_utf8(head.spec_bytes()) == head@);
        Error::InvalidViriformat(concat("invalid square: ", head))
    } else {
        let ghost b = uci.spec_bytes();
        assert(rest.spec_bytes() =~= b.subrange(2, b.len() as int));
        assert(is_char_boundary(rest.spec_bytes(), 2)) by {
            let r = rest.spec_bytes();
            vstd::utf8::encode_utf8_valid_utf8(uci@);
            vstd::utf8::encode_utf8_valid_utf8(rest@);
            if b.len() > 4 {
                assert(r[2] == b[4]);
                vstd::utf8::is_char_boundary_iff_not_is_continuation_byte(b, 4);
                vstd::utf8::is_char_boundary_iff_not_is_continuation_byte(r, 2);
            } else {
                vstd::utf8::is_char_boundary_start_end_of_seq(r);
            }
        }
        let (square, _) = rest.split_at(2);
        assert(square.spec_bytes() =~= b.subrange(2, 4));
        assert(decode_utf8(square.spec_bytes()) == square@);
        Error::InvalidViriformat(concat("invalid square: ", square))
    }
}

/// The piece of an optional pair of ordinals.
pub open spec fn captured_of(code: Option<(u8, u8)>) -> Option<Piece> {
    match code {
        Some(c) => Some(piece_of(c)),
        None => None,
    }
}

/// What reading `uci` (bytes `b`) into a viriformat move on `board` gives:
/// the errors of its text, the error for an empty source square, or the
/// move whose kind comes from the board's pieces, castling rights and en
/// passant square.
pub open spec fn uci_to_viri_move_outcome(
    board: viriformat::chess::board::Board,
    uci: Seq<char>,
    b: Seq<u8>,
    r: Result<ViriMove, Error>,
) -> bool {
    match uci_squares(b) {
        Err(fault) => is_uci_error(r, fault, uci, b),
        Ok((from, to)) => match viri_board_piece(board, from) {
            None => is_uci_error(r, UciFault::NoPiece, uci, b),
            Some(moved) => match uci_promotion(b) {
                Err(fault) => is_uci_error(r, fault, uci, b),
                Ok(promotion) => r == Ok::<ViriMove, Error>(
                    viri_move_spec(
                        from,
                        to,
                        promotion,
                        piece_of(moved),
                        captured_of(viri_board_piece(board, to)),
                        viri_board_rights(board),
                        viri_board_ep(board),
                    ),
                ),
            },
        },
    }
}

/// Reads a UCI move played on a viriformat board into a viriformat move.
///
/// Fails with the `NoPiece` message when the board has no piece on the
/// source square; otherwise the move kind is chosen from the board's pieces,
/// castling rights and en passant square (see `viri_move_from_parts`), read
/// from the viriformat library.
pub fn uci_to_viri_move(uci: &str, board: &viriformat::chess::board::Board) -> (r: Result<ViriMove, Error>)
    requires
        viri_uci_readable(uci.spec_bytes()),
    ensures
        uci_to_viri_move_outcome(*board, uci@, uci.spec_bytes(), r),
{
    let bytes = uci.as_bytes();
    let n = bytes.len();
    if n < 4 {
        return Err(uci_error(UciFault::TooShort, uci));
    }
    let from = match parse_square(bytes[0], bytes[1]) {
        Some(sq) => sq,
        None => return Err(square_error(uci, 0)),
    };
    let to = match parse_square(bytes[2], bytes[3]) {
        Some(sq) => sq,
        None => return Err(square_error(uci, 2)),
    };
    let moved = match viri_piece_at(board, from) {
        Some((t, c)) => Piece::new(PieceType::from_ordinal(t), Color::from_ordinal(c)),
        None => return Err(uci_error(UciFault::NoPiece, uci)),
    };
    let captured = match viri_piece_at(board, to) {
        Some((t, c)) => Some(Piece::new(PieceType::from_ordinal(t), Color::from_ordinal(c))),
        None => None,
    };
    let promotion = if n == 5 {
        match parse_promotion(bytes[4]) {
            Some(t) => Some(t),
            None => return Err(promotion_error(bytes[4])),
        }
    } else {
        None
    };
    let rights = viri_castling_rights(board);
    let ep = viri_ep_square(board);
    let mv = viri_move_from_parts(from, to, promotion, moved, captured, rights, ep);
    assert(mv == viri_move_spec(from, to, promotion, moved, captured, rights, ep));
    Ok(mv)
}

/// The binpack move for a viriformat move; promotions keep the promotion
/// piece, coloured White as the binpack encoding stores it.
pub open spec fn viri_to_sf_spec(mv: ViriMove) -> SfMove {
    match mv.kind {
        ViriMoveKind::Promotion(t) => SfMove {
            from: mv.from,
            to: mv.to,
            move_type: MoveType::Promotion,
            promoted_piece: Piece { piece_type: t, color: Color::White },
        },
        ViriMoveKind::Castle => SfMove { from: mv.from, to: mv.to, move_type: MoveType::Castle, promoted_piece: no_piece() },
        ViriMoveKind::EnPassant => SfMove {
            from: mv.from,
            to: mv.to,
            move_type: MoveType::EnPassant,
            promoted_piece: no_piece(),
        },
        ViriMoveKind::Normal => SfMove { from: mv.from, to: mv.to, move_type: MoveType::Normal, promoted_piece: no_piece() },
    }
}

/// Translates a viriformat move into the binpack encoding; both write
/// castling as the king moving onto the rook, so the squares carry over.
pub fn viri_move_to_sf_move(mv: ViriMove) -> (r: Result<SfMove, Error>)
    requires
        mv.from < 64,
        mv.to < 64,
    ensures
        r == Ok::<SfMove, Error>(viri_to_sf_spec(mv)),
{
    let from = mv.from();
    let to = mv.to();
    if let Some(promo) = mv.promotion_type() {
        return Ok(SfMove::new(from, to, MoveType::Promotion, Piece::new(promo, Color::White)));
    }
    let move_type = if mv.is_castle() {
        MoveType::Castle
    } else if mv.is_ep() {
        MoveType::EnPassant
    } else {
        MoveType::Normal
    };
    Ok(SfMove::new(from, to, move_type, Piece::none()))
}

/// The viriformat outcome of a game result; this library records every
/// decided game as adjudicated.
pub fn game_result_to_viri_outcome(result: GameResult) -> (o: GameOutcome)
    ensures
        o == match result {
            GameResult::WhiteWin => GameOutcome::WhiteWin(WinType::Adjudication),
            GameResult::Draw => GameOutcome::Draw(DrawType::Adjudication),
            GameResult::BlackWin => GameOutcome::BlackWin(WinType::Adjudication),
        },
{
    match result {
        GameResult::WhiteWin => GameOutcome::WhiteWin(WinType::Adjudication),
        GameResult::Draw => GameOutcome::Draw(DrawType::Adjudication),
        GameResult::BlackWin => GameOutcome::BlackWin(WinType::Adjudication),
    }
}

/// The game result as bulletformat text, from White's point of view:
/// `1.0` for a White win, `0.5` for a draw, `0.0` for a Black win.
pub open spec fn white_result_text(result: GameResult) -> Seq<char> {
    match result {
        GameResult::WhiteWin => "1.0"@,
        GameResult::Draw => "0.5"@,
        GameResult::BlackWin => "0.0"@,
    }
}

/// The game result from White's point of view, written with one decimal.
pub fn game_result_to_white_relative(result: GameResult) -> (s: &'static str)
    ensures
        s@ == white_result_text(result),
{
    proof {
        reveal_strlit("1.0");
        reveal_strlit("0.5");
        reveal_strlit("0.0");
    }
    match result {
        GameResult::WhiteWin => "1.0",
        GameResult::Draw => "0.5",
        GameResult::BlackWin => "0.0",
    }
}

/// The side-to-move field of a FEN: its second whitespace-separated token.
pub open spec fn fen_side_to_move(fen: Seq<char>) -> Option<Seq<char>> {
    let tokens = split_whitespace_spec(fen);
    if tokens.len() > 1 {
        Some(tokens[1])
    } else {
        None
    }
}

/// Turns a score relative to the side to move of `fen` into a score
/// relative to White.
pub fn score_to_white_relative(score: i16, fen: &str) -> (r: Result<i16, Error>)
    requires
        fen_side_to_move(fen@) == Some("b"@) ==> score != i16::MIN,
    ensures
        match fen_side_to_move(fen@) {
            None => r matches Err(Error::InvalidFen(m)) && m@ == "missing side-to-move in FEN: "@ + fen@,
            Some(side) => if side == "w"@ {
                r == Ok::<i16, Error>(score)
            } else if side == "b"@ {
                r == Ok::<i16, Error>((-score) as i16)
            } else {
                r matches Err(Error::InvalidFen(m)) && m@ == "invalid side-to-move in FEN: "@ + fen@
            },
        },
{
    let tokens = split_whitespace(fen);
    proof {
        reveal_strlit("w");
        reveal_strlit("b");
        reveal_strlit("missing side-to-move in FEN: ");
        reveal_strlit("invalid side-to-move in FEN: ");
        assert(tokens@.map_values(|t: String| t@).len() == tokens@.len());
    }
    if tokens.len() < 2 {
        return Err(Error::InvalidFen(concat("missing side-to-move in FEN: ", fen)));
    }
    let side = tokens[1].as_str();
    assert(side@ == split_whitespace_spec(fen@)[1]);
    if str_eq(side, "w") {
        Ok(score)
    } else if str_eq(side, "b") {
        Ok(-score)
    } else {
        Err(Error::InvalidFen(concat("invalid side-to-move in FEN: ", fen)))
    }
}

/// Castling in binpack moves: a king's two-square move from its home square
/// along the back rank is written as the king taking its own rook (on h or
/// a) exactly when the side that moves holds the castling right on that
/// side, whatever the other side's rights; without that right it is a plain
/// king move to the square named. No other piece, and no king moving from
/// the other side's home square, castles.
pub proof fn law_sf_castling(king: Piece, other: Piece, target: Piece, rights: SfCastling, ep: u32)
    requires
        king.piece_type == PieceType::King,
        other.piece_type != PieceType::King,
        other.piece_type != PieceType::Pawn,
    ensures
        king.color == Color::White ==> sf_move_spec(60, 62, None, king, target, rights, ep).move_type
            == MoveType::Normal && sf_move_spec(60, 58, None, king, target, rights, ep).move_type == MoveType::Normal,
        king.color == Color::Black ==> sf_move_spec(4, 6, None, king, target, rights, ep).move_type
            == MoveType::Normal && sf_move_spec(4, 2, None, king, target, rights, ep).move_type == MoveType::Normal,
        sf_move_spec(4, 6, None, other, target, rights, ep).move_type == MoveType::Normal,
        sf_move_spec(60, 58, None, other, target, rights, ep).move_type == MoveType::Normal,
        king.color == Color::White ==> sf_move_spec(4, 6, None, king, target, rights, ep) == (if rights.white_king_side {
            SfMove { from: 4, to: 7, move_type: MoveType::Castle, promoted_piece: no_piece() }
        } else {
            SfMove { from: 4, to: 6, move_type: MoveType::Normal, promoted_piece: no_piece() }
        }),
        king.color == Color::White ==> sf_move_spec(4, 2, None, king, target, rights, ep) == (if rights.white_queen_side {
            SfMove { from: 4, to: 0, move_type: MoveType::Castle, promoted_piece: no_piece() }
        } else {
            SfMove { from: 4, to: 2, move_type: MoveType::Normal, promoted_piece: no_piece() }
        }),
        king.color == Color::Black ==> sf_move_spec(60, 62, None, king, target, rights, ep) == (if rights.black_king_side {
            SfMove { from: 60, to: 63, move_type: MoveType::Castle, promoted_piece: no_piece() }
        } else {
            SfMove { from: 60, to: 62, move_type: MoveType::Normal, promoted_piece: no_piece() }
        }),
        king.color == Color::Black ==> sf_move_spec(60, 58, None, king, target, rights, ep) == (if rights.black_queen_side {
            SfMove { from: 60, to: 56, move_type: MoveType::Castle, promoted_piece: no_piece() }
        } else {
            SfMove { from: 60, to: 58, move_type: MoveType::Normal, promoted_piece: no_piece() }
        }),
{
}

/// Castling in viriformat moves: a king's two-square move from e1 or e8
/// along the back rank is written as the king taking its rook exactly when
/// the right on that side is held by the rook on the corner square (h1, a1,
/// h8, a8); otherwise it is a plain king move to the square named. No other
/// piece castles.
pub proof fn law_viri_castling(
    king: Piece,
    other: Piece,
    captured: Option<Piece>,
    rights: ViriCastling,
    ep: Option<u8>,
)
    requires
        king.piece_type == PieceType::King,
        other.piece_type != PieceType::King,
        other.piece_type != PieceType::Pawn,
    ensures
        viri_move_spec(4, 2, None, other, captured, rights, ep) == (ViriMove { from: 4, to: 2, kind: ViriMoveKind::Normal }),
        viri_move_spec(60, 62, None, other, captured, rights, ep) == (ViriMove { from: 60, to: 62, kind: ViriMoveKind::Normal }),
        viri_move_spec(4, 6, None, king, captured, rights, ep) == (if rights.wk == Some(7u8) {
            ViriMove { from: 4, to: 7, kind: ViriMoveKind::Castle }
        } else {
            ViriMove { from: 4, to: 6, kind: ViriMoveKind::Normal }
        }),
        viri_move_spec(4, 2, None, king, captured, rights, ep) == (if rights.wq == Some(0u8) {
            ViriMove { from: 4, to: 0, kind: ViriMoveKind::Castle }
        } else {
            ViriMove { from: 4, to: 2, kind: ViriMoveKind::Normal }
        }),
        viri_move_spec(60, 62, None, king, captured, rights, ep) == (if rights.bk == Some(63u8) {
            ViriMove { from: 60, to: 63, kind: ViriMoveKind::Castle }
        } else {
            ViriMove { from: 60, to: 62, kind: ViriMoveKind::Normal }
        }),
        viri_move_spec(60, 58, None, king, captured, rights, ep) == (if rights.bq == Some(56u8) {
            ViriMove { from: 60, to: 56, kind: ViriMoveKind::Castle }
        } else {
            ViriMove { from: 60, to: 58, kind: ViriMoveKind::Normal }
        }),
{
}

} // verus!
