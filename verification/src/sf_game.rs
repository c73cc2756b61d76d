//! Grouping binpack training entries into games, and reading a group into
//! the game model.
use vstd::prelude::*;
use vstd::string::*;
use vstd::utf8::encode_utf8;

use crate::chess::{Color, Piece, SfCastling, SfMove};
use crate::convert::{
    game_result_to_sf_result, sf_move_spec, sf_move_to_uci, sf_result_of, sf_result_spec, sf_result_to_game_result,
    sf_uci_readable, uci_promotion, uci_squares, uci_to_sf_move, uci_to_sf_move_outcome,
};
use crate::roundtrip::{canonical_uci, law_sf_move_keeps_uci};
use crate::error::Error;
use crate::model::{GameRecord, GameResult, PositionMoveEval};
use crate::sf::{sf_board_side, sf_side_to_move};

verus! {

broadcast use vstd::string::group_string_axioms;

/// A binpack training entry: the position's FEN (or the text of the error
/// the binpack library gave when writing it), its side to move, the move
/// played, the score and ply, and the result for the side to move.
pub struct SfEntry {
    pub fen: Result<String, String>,
    pub side_to_move: Color,
    pub mv: SfMove,
    pub score: i16,
    pub ply: u16,
    pub result: i16,
}

/// Entries arrive one by one, each marked as continuing the game before it
/// or not; the assembler holds the entries of the game being read.
pub struct SfGameAssembler {
    pub current: Vec<SfEntry>,
}

impl SfGameAssembler {
    pub fn new() -> (a: SfGameAssembler)
        ensures
            a.current@.len() == 0,
    {
        SfGameAssembler { current: Vec::new() }
    }

    /// Whether the reader is asked if the next entry continues the game:
    /// only while a game is being read.
    pub fn wants_continuation(&self) -> (r: bool)
        ensures
            r == (self.current@.len() > 0),
    {
        self.current.len() > 0
    }

    /// Takes the next entry. When it does not continue the game being read,
    /// that game is complete and is handed back; the entry begins the next.
    pub fn on_entry(&mut self, entry: SfEntry, continuation: bool) -> (done: Option<Vec<SfEntry>>)
        ensures
            (!continuation && old(self).current@.len() > 0) ==> {
                &&& done matches Some(g) && g@ == old(self).current@
                &&& final(self).current@ == seq![entry]
            },
            !(!continuation && old(self).current@.len() > 0) ==> {
                &&& done is None
                &&& final(self).current@ == old(self).current@.push(entry)
            },
    {
        if !continuation && self.current.len() > 0 {
            let mut next: Vec<SfEntry> = Vec::new();
            next.push(entry);
            let mut finished = next;
            std::mem::swap(&mut finished, &mut self.current);
            return Some(finished);
        }
        self.current.push(entry);
        None
    }

    /// The input has ended: the game being read, if any, is complete.
    pub fn on_end(&mut self) -> (done: Option<Vec<SfEntry>>)
        ensures
            old(self).current@.len() > 0 ==> (done matches Some(g) && g@ == old(self).current@),
            old(self).current@.len() == 0 ==> done is None,
            final(self).current@.len() == 0,
    {
        if self.current.len() == 0 {
            return None;
        }
        let mut finished: Vec<SfEntry> = Vec::new();
        std::mem::swap(&mut finished, &mut self.current);
        Some(finished)
    }
}

/// The move and the result field of the binpack entry written for a
/// position of a game, read against the binpack position it is played
/// from: the move as `uci_to_sf_move` reads it, and the game result relative
/// to the position's side to move.
pub fn sf_entry_for_position(
    item: &PositionMoveEval,
    result: GameResult,
    position: &sfbinpack::chess::position::Position,
) -> (r: Result<(SfMove, i16), Error>)
    requires
        sf_uci_readable(encode_utf8(item.uci@)),
    ensures
        uci_to_sf_move_outcome(
            *position,
            item.uci@,
            encode_utf8(item.uci@),
            match r {
                Ok((m, _)) => Ok::<SfMove, Error>(m),
                Err(e) => Err::<SfMove, Error>(e),
            },
        ),
        r matches Ok((_, field)) ==> field == sf_result_of(result, Color::spec_from_ordinal(sf_board_side(*position))),
{
    let mv = uci_to_sf_move(item.uci.as_str(), position)?;
    let side = Color::from_ordinal(sf_side_to_move(position));
    Ok((mv, game_result_to_sf_result(result, side)))
}

/// Whether a binpack move can be written as UCI text by the binpack library.
pub open spec fn entries_printable(entries: Seq<SfEntry>) -> bool {
    forall|i: int| 0 <= i < entries.len() ==> (#[trigger] entries[i]).mv.printable()
}

/// The position that an entry becomes in the game model.
pub open spec fn entry_position_ok(p: PositionMoveEval, e: SfEntry) -> bool {
    &&& e.fen matches Ok(f) && p.fen@ == f@
    &&& p.uci@ == e.mv.uci_text()
    &&& p.score == e.score
    &&& p.ply == e.ply
}

/// What a record read from the entries of one game holds: the first
/// entry's FEN, the game result read from its result field, and one
/// position per entry.
pub open spec fn sf_read_from(entries: Seq<SfEntry>, rec: GameRecord) -> bool {
    &&& entries.len() > 0
    &&& entries[0].fen matches Ok(f) && rec.initial_fen@ == f@
    &&& sf_result_spec(entries[0].result, entries[0].side_to_move) == Some(rec.result)
    &&& rec.positions@.len() == entries.len()
    &&& forall|i: int| 0 <= i < entries.len() ==> entry_position_ok(#[trigger] rec.positions@[i], entries[i])
}

/// Reads the entries of one game into the game model: the first entry's
/// FEN starts the game and its result (relative to its side to move) gives
/// the game result; every entry becomes a position.
pub fn build_game_record(entries: &Vec<SfEntry>) -> (r: Result<GameRecord, Error>)
    requires
        entries_printable(entries@),
    ensures
        entries@.len() == 0 ==> (r matches Err(Error::InvalidViriformat(m)) && m@ == "empty sfbinpack game"@),
        entries@.len() > 0 ==> match entries@[0].fen {
            Err(t) => r matches Err(Error::SfbinpackFen(m)) && m@ == t@,
            Ok(initial) => match sf_result_spec(entries@[0].result, entries@[0].side_to_move) {
                None => r matches Err(Error::InvalidViriformat(_)),
                Some(result) => (exists|i: int| 0 <= i < entries@.len() && (#[trigger] entries@[i]).fen is Err) ==> (
                r matches Err(Error::SfbinpackFen(m)) && exists|i: int|
                    0 <= i < entries@.len() && #[trigger] entries@[i].fen == Err::<String, String>(m)
                    && forall|j: int| 0 <= j < i ==> (#[trigger] entries@[j]).fen is Ok) && ((forall|i: int|
                    0 <= i < entries@.len() ==> (#[trigger] entries@[i]).fen is Ok) ==> (r matches Ok(rec)
                    && sf_read_from(entries@, rec))),
            },
        },
{
    if entries.len() == 0 {
        proof {
            reveal_strlit("empty sfbinpack game");
        }
        return Err(Error::InvalidViriformat(String::from_str("empty sfbinpack game")));
    }
    let first = &entries[0];
    let initial_fen = match &first.fen {
        Ok(f) => f.clone(),
        Err(t) => return Err(Error::SfbinpackFen(t.clone())),
    };
    let result = sf_result_to_game_result(first.result, first.side_to_move)?;
    let mut positions: Vec<PositionMoveEval> = Vec::new();
    let n = entries.len();
    let mut i: usize = 0;
    while i < n
        invariant
            n == entries@.len(),
            i <= n,
            entries_printable(entries@),
            entries@[0].fen is Ok,
            sf_result_spec(entries@[0].result, entries@[0].side_to_move) == Some(result),
            positions@.len() == i,
            forall|j: int| 0 <= j < i ==> (#[trigger] entries@[j]).fen is Ok,
            forall|j: int| 0 <= j < i ==> entry_position_ok(#[trigger] positions@[j], entries@[j]),
        decreases n - i,
    {
        let entry = &entries[i];
        let fen = match &entry.fen {
            Ok(f) => f.clone(),
            Err(t) => {
                let m = t.clone();
                assert(entries@[i as int].fen == Err::<String, String>(m));
                assert(forall|j: int| 0 <= j < i ==> (#[trigger] entries@[j]).fen is Ok);
                return Err(Error::SfbinpackFen(m));
            },
        };
        assert(entries@[i as int].mv.printable());
        let uci = sf_move_to_uci(entry.mv);
        positions.push(PositionMoveEval { fen, uci, score: entry.score, ply: entry.ply });
        i += 1;
    }
    Ok(GameRecord { initial_fen, result, positions })
}

/// An entry written for a position of a game (see `sf_entry_for_position`):
/// the position's score and ply, its move read from its UCI text against
/// some position, and the game result relative to the entry's side to move.
pub open spec fn sf_written_entry(p: PositionMoveEval, result: GameResult, e: SfEntry) -> bool {
    let b = encode_utf8(p.uci@);
    &&& e.score == p.score
    &&& e.ply == p.ply
    &&& e.result == sf_result_of(result, e.side_to_move)
    &&& uci_squares(b) matches Ok((from, to))
    &&& uci_promotion(b) matches Ok(promotion)
    &&& exists|piece: Piece, target: Piece, rights: SfCastling, ep: u32|
        e.mv == #[trigger] sf_move_spec(from, to, promotion, piece, target, rights, ep)
}

/// A game written as binpack entries and read back keeps its result and,
/// for each position, its move's UCI text, its score and its ply, when the
/// game has a position and every move is canonical UCI text (see
/// `canonical_uci`). (The FENs read back come from the binpack library.)
pub proof fn law_sfbinpack_roundtrip(record: GameRecord, entries: Seq<SfEntry>, back: GameRecord)
    requires
        record.positions@.len() > 0,
        entries.len() == record.positions@.len(),
        forall|i: int| 0 <= i < entries.len() ==> #[trigger] sf_written_entry(record.positions@[i], record.result, entries[i]),
        forall|i: int|
            0 <= i < record.positions@.len() ==> canonical_uci(encode_utf8((#[trigger] record.positions@[i]).uci@)),
        sf_read_from(entries, back),
    ensures
        back.result == record.result,
        back.positions@.len() == record.positions@.len(),
        forall|i: int|
            0 <= i < back.positions@.len() ==> {
                &&& (#[trigger] back.positions@[i]).uci@ == record.positions@[i].uci@
                &&& back.positions@[i].score == record.positions@[i].score
                &&& back.positions@[i].ply == record.positions@[i].ply
            },
{
    assert(sf_written_entry(record.positions@[0], record.result, entries[0]));
    crate::roundtrip::law_sf_result_roundtrip(record.result, entries[0].side_to_move);
    assert forall|i: int| 0 <= i < back.positions@.len() implies {
        &&& (#[trigger] back.positions@[i]).uci@ == record.positions@[i].uci@
        &&& back.positions@[i].score == record.positions@[i].score
        &&& back.positions@[i].ply == record.positions@[i].ply
    } by {
        let p = record.positions@[i];
        let e = entries[i];
        assert(sf_written_entry(p, record.result, e));
        assert(entry_position_ok(back.positions@[i], e));
        assert(canonical_uci(encode_utf8(p.uci@)));
        let b = encode_utf8(p.uci@);
        let squares = uci_squares(b)->Ok_0;
        let promotion = uci_promotion(b)->Ok_0;
        let (piece, target, rights, ep) = choose|piece: Piece, target: Piece, rights: SfCastling, ep: u32|
            e.mv == #[trigger] sf_move_spec(squares.0, squares.1, promotion, piece, target, rights, ep);
        law_sf_move_keeps_uci(p.uci@, piece, target, rights, ep);
    }
}

} // verus!
