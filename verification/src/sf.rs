//! Calls into the `sfbinpack` crate, the reader and writer of Stockfish
//! binpack training data.
use vstd::prelude::*;

use sfbinpack::chess::castling_rights::{CastleType, CastlingTraits};
use sfbinpack::chess::color::Color as SfColor;

verus! {

/// A binpack position; opaque here, read through the functions below.
#[verifier::external_type_specification]
#[verifier::external_body]
pub struct ExSfPosition(sfbinpack::chess::position::Position);

/// The type and colour ordinals (`PieceType::ordinal`, `Color::ordinal`)
/// of the piece that `Position::piece_at` finds on a square.
pub uninterp spec fn sf_board_piece(position: sfbinpack::chess::position::Position, square: u8) -> (u8, u8);

/// Whether `Position::castling_rights` holds the right of the given colour
/// and side.
pub uninterp spec fn sf_board_right(position: sfbinpack::chess::position::Position, white: bool, king_side: bool) -> bool;

/// The index of `Position::ep_square` (64 when there is none).
pub uninterp spec fn sf_board_ep(position: sfbinpack::chess::position::Position) -> u32;

/// The ordinal of `Position::side_to_move` (0 White, 1 Black).
pub uninterp spec fn sf_board_side(position: sfbinpack::chess::position::Position) -> u8;

/// Calls `Position::piece_at` and returns the piece's type ordinal and
/// colour ordinal, as `PieceType::ordinal` and `Color::ordinal` give them.
#[verifier::external_body]
pub(crate) fn sf_piece_at(position: &sfbinpack::chess::position::Position, square: u8) -> (r: (u8, u8))
    requires
        square < 64,
    ensures
        r == sf_board_piece(*position, square),
        r.0 <= 6,
        r.1 <= 1,
{
    let piece = position.piece_at(sfbinpack::chess::coords::Square::new(square as u32));
    (piece.piece_type().ordinal(), piece.color().ordinal())
}

/// Calls `CastlingRights::contains` on `Position::castling_rights` for the
/// right of the given colour and side.
#[verifier::external_body]
pub(crate) fn sf_has_castling_right(
    position: &sfbinpack::chess::position::Position,
    white: bool,
    king_side: bool,
) -> (r: bool)
    ensures
        r == sf_board_right(*position, white, king_side),
{
    let color = if white { SfColor::White } else { SfColor::Black };
    let side = if king_side { CastleType::Short } else { CastleType::Long };
    position.castling_rights().contains(CastlingTraits::castling_rights(color, side))
}

/// Calls `Position::ep_square` and returns the square's index (64 when
/// there is none).
#[verifier::external_body]
pub(crate) fn sf_ep_square(position: &sfbinpack::chess::position::Position) -> (r: u32)
    ensures
        r == sf_board_ep(*position),
{
    position.ep_square().index()
}

/// Calls `Position::side_to_move` and returns its ordinal (0 White,
/// 1 Black).
#[verifier::external_body]
pub(crate) fn sf_side_to_move(position: &sfbinpack::chess::position::Position) -> (r: u8)
    ensures
        r == sf_board_side(*position),
        r <= 1,
{
    position.side_to_move().ordinal()
}

} // verus!
