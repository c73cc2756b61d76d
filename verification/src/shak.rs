//! Calls into the `shakmaty` chess library: reading FENs and UCI moves,
//! playing moves, and Zobrist hashing.
use vstd::prelude::*;

use shakmaty::fen::Fen;
use shakmaty::uci::UciMove;
use shakmaty::zobrist::{Zobrist64, ZobristHash};
use shakmaty::{CastlingMode, Chess, EnPassantMode, Position};

use crate::error::Error;
use crate::text::concat;

verus! {

/// A parsed FEN; opaque here.
#[verifier::external_type_specification]
#[verifier::external_body]
pub struct ExFen(shakmaty::fen::Fen);

/// A standard chess position; opaque here.
#[verifier::external_type_specification]
#[verifier::external_body]
pub struct ExChess(shakmaty::Chess);

/// A move in UCI notation; opaque here.
#[verifier::external_type_specification]
#[verifier::external_body]
pub struct ExUciMove(shakmaty::uci::UciMove);

/// Whether `Fen::from_ascii` accepts the bytes of a text.
pub uninterp spec fn fen_parses(text: Seq<char>) -> bool;

/// The FEN that `Fen::from_ascii` reads from the bytes of a text that it
/// accepts.
pub uninterp spec fn parsed_fen(text: Seq<char>) -> Fen;

/// What `Fen::into_position` gives for standard chess: the position, or
/// `None` when the FEN is not a legal position.
pub uninterp spec fn fen_position(fen: Fen) -> Option<Chess>;

/// Whether `UciMove::from_str` accepts a text.
pub uninterp spec fn uci_parses(text: Seq<char>) -> bool;

/// The UCI move that `UciMove::from_str` reads from a text that it accepts.
pub uninterp spec fn parsed_uci(text: Seq<char>) -> UciMove;

/// What playing a UCI move gives (`UciMove::to_move`, then
/// `Position::play_unchecked` with the legal move found): the position after
/// it, or `None` when the move is not legal in the position.
pub uninterp spec fn uci_play(position: Chess, uci: UciMove) -> Option<Chess>;

/// The 64-bit Zobrist hash of a position, counting the en passant square
/// only when a legal capture exists.
pub uninterp spec fn zobrist(position: Chess) -> u64;

/// Calls `Fen::from_ascii` on the text's bytes.
#[verifier::external_body]
pub(crate) fn parse_fen(text: &str) -> (r: Option<Fen>)
    ensures
        r is Some == fen_parses(text@),
        r matches Some(f) ==> f == parsed_fen(text@),
{
    Fen::from_ascii(text.as_bytes()).ok()
}

/// Calls `Fen::into_position` for standard chess (not Chess960), which
/// fails on a position that is not legal.
#[verifier::external_body]
pub(crate) fn fen_into_position(fen: Fen) -> (r: Option<Chess>)
    ensures
        r == fen_position(fen),
{
    fen.into_position(CastlingMode::Standard).ok()
}

/// Calls `UciMove::from_str`; its error's text is `invalid uci`.
#[verifier::external_body]
pub(crate) fn parse_uci(text: &str) -> (r: Result<UciMove, String>)
    ensures
        r is Ok == uci_parses(text@),
        r matches Ok(u) ==> u == parsed_uci(text@),
        r matches Err(e) ==> e@ == "invalid uci"@,
{
    match text.parse::<UciMove>() {
        Ok(uci) => Ok(uci),
        Err(error) => Err(error.to_string()),
    }
}

/// Calls `UciMove::to_move`, which finds the legal move of the position
/// that the UCI move names or fails with the text `illegal uci`, and plays
/// the move found with `Position::play_unchecked` (legal, so it does not
/// panic). On failure the position is left alone.
#[verifier::external_body]
pub(crate) fn play_uci_move(position: &mut Chess, uci: UciMove) -> (r: Result<(), String>)
    ensures
        match uci_play(*old(position), uci) {
            Some(after) => r is Ok && *final(position) == after,
            None => (r matches Err(e) && e@ == "illegal uci"@) && *final(position) == *old(position),
        },
{
    match uci.to_move(position) {
        Ok(m) => {
            position.play_unchecked(m);
            Ok(())
        },
        Err(error) => Err(error.to_string()),
    }
}

/// Calls `ZobristHash::zobrist_hash` for a 64-bit hash, counting the en
/// passant square only when a legal capture exists.
#[verifier::external_body]
pub(crate) fn zobrist64(position: &Chess) -> (r: u64)
    ensures
        r == zobrist(*position),
{
    position.zobrist_hash::<Zobrist64>(EnPassantMode::Legal).0
}

/// The position a game starts from: its FEN read and turned into a legal
/// position.
pub open spec fn start_spec(fen: Seq<char>) -> Option<Chess> {
    if fen_parses(fen) {
        fen_position(parsed_fen(fen))
    } else {
        None
    }
}

/// The position after one move given as UCI text, if the text is UCI and
/// the move legal.
pub open spec fn step_spec(position: Chess, uci: Seq<char>) -> Option<Chess> {
    if uci_parses(uci) {
        uci_play(position, parsed_uci(uci))
    } else {
        None
    }
}

/// The position after the given moves, played in turn, if each is legal.
pub open spec fn replay(start: Chess, moves: Seq<Seq<char>>) -> Option<Chess>
    decreases moves.len(),
{
    if moves.len() == 0 {
        Some(start)
    } else {
        match replay(start, moves.drop_last()) {
            Some(p) => step_spec(p, moves.last()),
            None => None,
        }
    }
}

/// A prefix of moves that replays comes from a shorter prefix that replays.
pub proof fn lemma_replay_prefix(start: Chess, moves: Seq<Seq<char>>, i: int, j: int)
    requires
        0 <= i <= j <= moves.len(),
        replay(start, moves.take(j)) is Some,
    ensures
        replay(start, moves.take(i)) is Some,
    decreases j - i,
{
    if i < j {
        assert(moves.take(j).drop_last() =~= moves.take(j - 1));
        lemma_replay_prefix(start, moves, i, j - 1);
    }
}

/// Starts a game from a FEN, with the error the tool gives for a FEN that
/// does not parse and (in the message `invalid`) for one that is not a legal
/// position.
pub(crate) fn start_position(fen: &str, invalid: &str) -> (r: Result<Chess, Error>)
    ensures
        match start_spec(fen@) {
            Some(p) => r == Ok::<Chess, Error>(p),
            None => if fen_parses(fen@) {
                r matches Err(Error::InvalidGameData(m)) && m@ == invalid@ + fen@
            } else {
                r matches Err(Error::InvalidFen(m)) && m@ == fen@
            },
        },
{
    let parsed = match parse_fen(fen) {
        Some(f) => f,
        None => return Err(Error::InvalidFen(String::from_str(fen))),
    };
    match fen_into_position(parsed) {
        Some(position) => Ok(position),
        None => Err(Error::InvalidGameData(concat(invalid, fen))),
    }
}

/// Plays a UCI move on a position, with the errors the tool gives, made of
/// the given prefixes and the library's error text; on an error the
/// position is left alone.
pub(crate) fn play_uci(position: &mut Chess, uci: &str, invalid: &str, illegal: &str) -> (r: Result<(), Error>)
    ensures
        match step_spec(*old(position), uci@) {
            Some(after) => r is Ok && *final(position) == after,
            None => *final(position) == *old(position) && if uci_parses(uci@) {
                r matches Err(Error::InvalidGameData(m)) && m@ == illegal@ + "illegal uci"@
            } else {
                r matches Err(Error::InvalidGameData(m)) && m@ == invalid@ + "invalid uci"@
            },
        },
{
    let parsed = match parse_uci(uci) {
        Ok(u) => u,
        Err(text) => return Err(Error::InvalidGameData(concat(invalid, text.as_str()))),
    };
    match play_uci_move(position, parsed) {
        Ok(()) => Ok(()),
        Err(text) => Err(Error::InvalidGameData(concat(illegal, text.as_str()))),
    }
}

} // verus!
