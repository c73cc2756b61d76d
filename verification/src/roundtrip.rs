//! What survives a trip through the binpack and viriformat encodings:
//! the UCI text of each move and the game result.
use vstd::prelude::*;
use vstd::utf8::{decode_utf8, encode_utf8, pop_first_scalar, valid_utf8};

use crate::chess::{square_name, Color, Piece, SfCastling, ViriCastling};
use crate::convert::{
    sf_move_spec, sf_result_of, sf_result_spec, uci_promotion, uci_squares, viri_move_spec, viri_to_sf_spec,
};
use crate::model::GameResult;

verus! {

/// The characters of bytes read one character per byte.
pub open spec fn ascii_text(b: Seq<u8>) -> Seq<char> {
    b.map_values(|x: u8| x as char)
}

/// Whether `b` is a UCI move in the form the encodings write back: two
/// squares and, for a promotion, one lower-case piece letter.
pub open spec fn canonical_uci(b: Seq<u8>) -> bool {
    &&& b.len() == 4 || b.len() == 5
    &&& uci_squares(b) is Ok
    &&& uci_promotion(b) is Ok
}

proof fn lemma_decode_ascii(b: Seq<u8>)
    requires
        forall|i: int| 0 <= i < b.len() ==> b[i] < 128,
    ensures
        valid_utf8(b),
        decode_utf8(b) == ascii_text(b),
    decreases b.len(),
{
    if b.len() > 0 {
        let c = b[0];
        assert(c & 0x7f == c) by (bit_vector)
            requires
                c < 128,
        ;
        let rest = pop_first_scalar(b);
        assert(rest =~= b.drop_first());
        lemma_decode_ascii(rest);
        assert(ascii_text(b) =~= seq![c as char] + ascii_text(rest));
    }
}

/// The text of a canonical UCI move is its bytes, one character each.
proof fn lemma_canonical_text(uci: Seq<char>)
    requires
        canonical_uci(encode_utf8(uci)),
    ensures
        uci == ascii_text(encode_utf8(uci)),
{
    let b = encode_utf8(uci);
    assert forall|i: int| 0 <= i < b.len() implies b[i] < 128 by {
        if i == 4 {
            assert(uci_promotion(b) is Ok);
        }
    }
    lemma_decode_ascii(b);
    vstd::utf8::encode_utf8_decode_utf8(uci);
}

/// The UCI text of two squares, read from a canonical move's bytes, is
/// their names.
proof fn lemma_square_names(b: Seq<u8>)
    requires
        canonical_uci(b),
    ensures
        square_name(uci_squares(b)->Ok_0.0 as int) + square_name(uci_squares(b)->Ok_0.1 as int) =~= ascii_text(
            b,
        ).subrange(0, 4),
{
    let (from, to) = uci_squares(b)->Ok_0;
    let (f0, r0, f1, r1) = (b[0] as int, b[1] as int, b[2] as int, b[3] as int);
    assert((from as int) % 8 == f0 - 97 && (from as int) / 8 == r0 - 49) by (nonlinear_arith)
        requires
            from as int == (r0 - 49) * 8 + (f0 - 97),
            97 <= f0 <= 104,
            49 <= r0 <= 56,
    ;
    assert((to as int) % 8 == f1 - 97 && (to as int) / 8 == r1 - 49) by (nonlinear_arith)
        requires
            to as int == (r1 - 49) * 8 + (f1 - 97),
            97 <= f1 <= 104,
            49 <= r1 <= 56,
    ;
}

/// A UCI move read into a binpack move is written back by the binpack
/// library as the same text, whatever the position it was read against:
/// castling goes to the rook's square and back to the king's destination.
pub proof fn law_sf_move_keeps_uci(uci: Seq<char>, piece: Piece, target: Piece, rights: SfCastling, ep: u32)
    requires
        canonical_uci(encode_utf8(uci)),
    ensures
        ({
            let b = encode_utf8(uci);
            let squares = uci_squares(b)->Ok_0;
            let m = sf_move_spec(squares.0, squares.1, uci_promotion(b)->Ok_0, piece, target, rights, ep);
            m.printable() && m.uci_text() == uci
        }),
{
    let b = encode_utf8(uci);
    lemma_canonical_text(uci);
    lemma_square_names(b);
    let squares = uci_squares(b)->Ok_0;
    let m = sf_move_spec(squares.0, squares.1, uci_promotion(b)->Ok_0, piece, target, rights, ep);
    assert(m.uci_text() =~= ascii_text(b));
}

/// A UCI move read into a viriformat move, whatever the board it was read
/// against, is written back as the same text once translated into the
/// binpack encoding (as reading a viriformat game does).
pub proof fn law_viri_move_keeps_uci(
    uci: Seq<char>,
    moved: Piece,
    captured: Option<Piece>,
    rights: ViriCastling,
    ep: Option<u8>,
)
    requires
        canonical_uci(encode_utf8(uci)),
    ensures
        ({
            let b = encode_utf8(uci);
            let squares = uci_squares(b)->Ok_0;
            let m = viri_to_sf_spec(
                viri_move_spec(squares.0, squares.1, uci_promotion(b)->Ok_0, moved, captured, rights, ep),
            );
            m.printable() && m.uci_text() == uci
        }),
{
    let b = encode_utf8(uci);
    lemma_canonical_text(uci);
    lemma_square_names(b);
    let squares = uci_squares(b)->Ok_0;
    let m = viri_to_sf_spec(
        viri_move_spec(squares.0, squares.1, uci_promotion(b)->Ok_0, moved, captured, rights, ep),
    );
    assert(m.uci_text() =~= ascii_text(b));
}

/// A game result written into a binpack entry's result field, relative to
/// the side to move, is read back as the same result.
pub proof fn law_sf_result_roundtrip(result: GameResult, side_to_move: Color)
    ensures
        sf_result_spec(sf_result_of(result, side_to_move) as i16, side_to_move) == Some(result),
{
}

/// A binpack result field that names a result (1, 0 or -1) is written back
/// unchanged from the result it is read as.
pub proof fn law_sf_result_field_roundtrip(field: i16, side_to_move: Color)
    requires
        sf_result_spec(field, side_to_move) is Some,
    ensures
        sf_result_of(sf_result_spec(field, side_to_move)->Some_0, side_to_move) == field,
{
}

} // verus!
