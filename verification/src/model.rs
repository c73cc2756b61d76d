use vstd::prelude::*;
use vstd::string::*;

use crate::error::Error;
use crate::shak::{fen_parses, play_uci, replay, start_position, start_spec, step_spec, uci_parses};
use crate::text::{decimal, push_decimal_u64};

verus! {

broadcast use vstd::string::group_string_axioms;

/// The outcome of a game, from White's point of view.
#[derive(Clone, Copy, Debug, PartialEq, Eq, Structural)]
pub enum GameResult {
    WhiteWin,
    Draw,
    BlackWin,
}

/// One position of a game: its FEN, the move played from it in UCI
/// notation, the engine score relative to the side to move, and its ply.
#[derive(Clone, Debug, PartialEq, Eq)]
pub struct PositionMoveEval {
    pub fen: String,
    pub uci: String,
    pub score: i16,
    pub ply: u16,
}

/// A game: the starting FEN, the result and every position with its move.
#[derive(Clone, Debug, PartialEq, Eq)]
pub struct GameRecord {
    pub initial_fen: String,
    pub result: GameResult,
    pub positions: Vec<PositionMoveEval>,
}

/// The message for a move of a game that fails: what failed, the move's
/// index and text, and the chess library's error text.
pub open spec fn move_failure_text(what: Seq<char>, index: int, uci: Seq<char>, error: Seq<char>) -> Seq<
    char,
> {
    what + " at index "@ + decimal(index) + " ("@ + uci + ") : "@ + error
}

/// The moves of a game as UCI texts, in order.
pub open spec fn ucis_of(game: GameRecord) -> Seq<Seq<char>> {
    game.positions@.map_values(|p: PositionMoveEval| p.uci@)
}

/// Whether a game replays: its FEN is a legal position and each move is
/// legal where it is played.
pub open spec fn game_replays(game: GameRecord) -> bool {
    start_spec(game.initial_fen@) matches Some(p) && replay(p, ucis_of(game)) is Some
}

/// `message` is what replaying `game` gives when it stops at move `index`:
/// the game starts and replays up to that move, which is not UCI text, or
/// is but is not legal there.
pub open spec fn fails_at_move(game: GameRecord, index: int, message: Seq<char>) -> bool {
    let uci = game.positions@[index].uci@;
    &&& 0 <= index < game.positions@.len()
    &&& start_spec(game.initial_fen@) matches Some(p)
    &&& replay(p, ucis_of(game).take(index)) matches Some(q)
    &&& step_spec(q, uci) is None
    &&& if uci_parses(uci) {
        message == move_failure_text("illegal move"@, index, uci, "illegal uci"@)
    } else {
        message == move_failure_text("invalid UCI move"@, index, uci, "invalid uci"@)
    }
}

/// The errors that validating a game gives: the FEN itself for a text that
/// does not read as a FEN, a message with the FEN for one that is no legal
/// position, and for a move that cannot be played a message naming it and
/// its index.
pub open spec fn validation_error(game: GameRecord, e: Error) -> bool {
    if !fen_parses(game.initial_fen@) {
        e matches Error::InvalidFen(m) && m@ == game.initial_fen@
    } else if start_spec(game.initial_fen@) is None {
        e matches Error::InvalidGameData(m) && m@ == "invalid position from FEN: "@ + game.initial_fen@
    } else {
        e matches Error::InvalidGameData(m) && exists|i: int| fails_at_move(game, i, m@)
    }
}

impl GameRecord {
    /// Replays the game from its initial FEN with a chess library, checking
    /// that the FEN is a legal position and each move's UCI text is legal
    /// where it is played.
    pub fn validate(&self) -> (r: Result<(), Error>)
        ensures
            r is Ok <==> game_replays(*self),
            !fen_parses(self.initial_fen@) ==> (r matches Err(Error::InvalidFen(m)) && m@
                == self.initial_fen@),
            fen_parses(self.initial_fen@) && start_spec(self.initial_fen@) is None ==> (r matches Err(
                Error::InvalidGameData(m),
            ) && m@ == "invalid position from FEN: "@ + self.initial_fen@),
            start_spec(self.initial_fen@) is Some ==> (r is Ok || (r matches Err(Error::InvalidGameData(m))
                && exists|i: int| fails_at_move(*self, i, m@))),
            r matches Err(e) ==> validation_error(*self, e),
    {
        let mut position = start_position(self.initial_fen.as_str(), "invalid position from FEN: ")?;
        let ghost start = position;
        proof {
            assert(ucis_of(*self).take(0) =~= Seq::<Seq<char>>::empty());
        }
        let n = self.positions.len();
        let mut i: usize = 0;
        while i < n
            invariant
                n == self.positions@.len(),
                i <= n,
                start_spec(self.initial_fen@) == Some(start),
                replay(start, ucis_of(*self).take(i as int)) == Some(position),
            decreases n - i,
        {
            let uci = self.positions[i].uci.as_str();
            let mut invalid = String::from_str("invalid UCI move");
            invalid.append(" at index ");
            push_decimal_u64(&mut invalid, i as u64);
            invalid.append(" (");
            invalid.append(uci);
            invalid.append(") : ");
            let mut illegal = String::from_str("illegal move");
            illegal.append(" at index ");
            push_decimal_u64(&mut illegal, i as u64);
            illegal.append(" (");
            illegal.append(uci);
            illegal.append(") : ");
            let ghost before = position;
            let played = play_uci(&mut position, uci, invalid.as_str(), illegal.as_str());
            proof {
                let ucis = ucis_of(*self);
                assert(ucis[i as int] == uci@);
                assert(ucis.take(i as int + 1).drop_last() =~= ucis.take(i as int));
                assert(ucis.take(i as int + 1).last() == uci@);
            }
            if played.is_err() {
                proof {
                    let m = played->Err_0->InvalidGameData_0;
                    assert(fails_at_move(*self, i as int, m@));
                    if game_replays(*self) {
                        assert(ucis_of(*self).take(n as int) =~= ucis_of(*self));
                        crate::shak::lemma_replay_prefix(start, ucis_of(*self), i as int + 1, n as int);
                    }
                }
                return played;
            }
            i += 1;
        }
        proof {
            assert(ucis_of(*self).take(n as int) =~= ucis_of(*self));
        }
        Ok(())
    }
}

} // verus!
