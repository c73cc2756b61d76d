//! Bulletformat positions: reading them from the bullet plain-text format
//! and building them from game positions.
use vstd::prelude::*;
use vstd::string::*;

use crate::backend::ConvertProgress;
use crate::bullet_scan::{bullet_line_is_safe, bullet_line_safe};
use crate::convert::{fen_side_to_move, game_result_to_white_relative, score_to_white_relative, white_result_text};
use crate::error::Error;
use crate::inspect::BulletBoard;
use crate::model::{GameResult, PositionMoveEval};
use crate::text::{char_is_whitespace, decimal, decimal_digits, is_blank, push_decimal_i64, push_decimal_u64};

verus! {

broadcast use vstd::string::group_string_axioms;

/// What `ChessBoard::from_str` of the bulletformat crate gives for a line
/// `fen | score | result`: the board, or the text of its error.
pub uninterp spec fn bullet_parse_spec(text: Seq<char>) -> Result<BulletBoard, Seq<char>>;

/// Calls `ChessBoard::from_str` and copies the board's fields, or returns
/// the error's text. The parse depends on the text alone; its rules are
/// named here, not restated. The lines on which it panics are left out (see
/// `bullet_line_safe`); on a score or result it cannot read it also prints
/// the line to standard output.
#[verifier::external_body]
fn parse_chess_board(text: &str) -> (r: Result<BulletBoard, String>)
    requires
        bullet_line_safe(text@),
    ensures
        match (r, bullet_parse_spec(text@)) {
            (Ok(b), Ok(c)) => b == c,
            (Err(e), Err(c)) => e@ == c,
            _ => false,
        },
{
    match text.parse::<bulletformat::ChessBoard>() {
        Ok(b) => Ok(BulletBoard {
            occ: b.occ,
            pcs: b.pcs,
            score: b.score,
            result: b.result,
            ksq: b.ksq,
            opp_ksq: b.opp_ksq,
            extra: b.extra,
        }),
        Err(e) => Err(e),
    }
}

/// What reading a line gives: the parse of a line that the parser reads
/// without panicking (see `bullet_line_safe`), and for any other line an
/// error of this library.
pub open spec fn bullet_read(text: Seq<char>) -> Result<BulletBoard, Seq<char>> {
    if bullet_line_safe(text) {
        bullet_parse_spec(text)
    } else {
        Err("position outside what the board parser reads"@)
    }
}

/// Reads a line with bulletformat's parser, when the parser reads it
/// without panicking.
fn read_chess_board(text: &str) -> (r: Result<BulletBoard, String>)
    ensures
        match (r, bullet_read(text@)) {
            (Ok(b), Ok(c)) => b == c,
            (Err(e), Err(c)) => e@ == c,
            _ => false,
        },
{
    if !bullet_line_is_safe(text) {
        return Err(String::from_str("position outside what the board parser reads"));
    }
    parse_chess_board(text)
}

/// The bullet plain-text line of a game position: its FEN, the score and
/// the game result, both from White's point of view.
pub open spec fn position_line_text(fen: Seq<char>, white_score: int, result: GameResult) -> Seq<char> {
    fen + " | "@ + decimal(white_score) + " | "@ + white_result_text(result)
}

/// The white-relative score of a position, when its FEN names a side to move.
pub open spec fn white_score_spec(score: i16, fen: Seq<char>) -> Option<int> {
    match fen_side_to_move(fen) {
        Some(side) => if side == "w"@ {
            Some(score as int)
        } else if side == "b"@ {
            Some(-score)
        } else {
            None
        },
        None => None,
    }
}

/// The bulletformat board of one position of a game.
pub fn bullet_board_for_position(position: &PositionMoveEval, result: GameResult) -> (r: Result<BulletBoard, Error>)
    requires
        fen_side_to_move(position.fen@) == Some("b"@) ==> position.score != i16::MIN,
    ensures
        match white_score_spec(position.score, position.fen@) {
            None => r matches Err(Error::InvalidFen(_)),
            Some(w) => match bullet_read(position_line_text(position.fen@, w, result)) {
                Ok(board) => r == Ok::<BulletBoard, Error>(board),
                Err(text) => r matches Err(Error::InvalidBulletformat(m)) && m@ == text,
            },
        },
{
    proof {
        reveal_strlit("w");
        reveal_strlit("b");
        reveal_strlit(" | ");
    }
    let white_score = score_to_white_relative(position.score, position.fen.as_str())?;
    let mut line = String::from_str(position.fen.as_str());
    line.append(" | ");
    push_decimal_i64(&mut line, white_score as i64);
    line.append(" | ");
    line.append(game_result_to_white_relative(result));
    assert(line@ =~= position_line_text(position.fen@, white_score as int, result));
    match read_chess_board(line.as_str()) {
        Ok(board) => Ok(board),
        Err(text) => Err(Error::InvalidBulletformat(text)),
    }
}

/// Whether a line holds nothing but whitespace.
pub fn str_is_blank(s: &str) -> (r: bool)
    ensures
        r == is_blank(s@),
{
    for c in iter: s.chars()
        invariant
            iter.seq() == s@,
            forall|j: int| 0 <= j < iter.index() ==> crate::text::is_whitespace(#[trigger] s@[j]),
    {
        if !char_is_whitespace(c) {
            return false;
        }
    }
    true
}

/// The position of line `index` (counted from 0) of a bullet plain-text
/// file: nothing for a blank line, else the parsed board, or an error that
/// names the line (counted from 1).
pub fn bullet_board_from_line(line: &str, index: usize) -> (r: Result<Option<BulletBoard>, Error>)
    requires
        index < usize::MAX,
    ensures
        is_blank(line@) ==> r == Ok::<Option<BulletBoard>, Error>(None),
        !is_blank(line@) ==> match bullet_read(line@) {
            Ok(board) => r == Ok::<Option<BulletBoard>, Error>(Some(board)),
            Err(text) => r matches Err(Error::InvalidBulletformat(m)) && m@ == "line "@ + decimal_digits(
                (index + 1) as nat,
            ) + ": "@ + text,
        },
{
    if str_is_blank(line) {
        return Ok(None);
    }
    match read_chess_board(line) {
        Ok(board) => Ok(Some(board)),
        Err(text) => {
            proof {
                reveal_strlit("line ");
                reveal_strlit(": ");
            }
            let mut m = String::from_str("line ");
            push_decimal_u64(&mut m, (index + 1) as u64);
            m.append(": ");
            m.append(text.as_str());
            Err(Error::InvalidBulletformat(m))
        },
    }
}

/// What to do with a line of a bullet plain-text file being converted.
pub enum LineStep {
    /// The line is blank: go on with the next one.
    Skip,
    /// The limit on positions is reached: finish the output.
    Stop,
    /// Write this position.
    Write(BulletBoard),
}

/// Whether a conversion has written as many positions as its limit allows.
pub open spec fn limit_reached(progress: ConvertProgress) -> bool {
    progress.limit matches Some(l) && progress.converted >= l
}

/// Decides what to do with line `index` (counted from 0) of a bullet
/// plain-text file being converted, under the conversion's limit: the limit
/// counts the lines that are not blank, and a line is read only while the
/// limit leaves room for it.
pub fn on_text_line(progress: &mut ConvertProgress, line: &str, index: usize) -> (r: Result<LineStep, Error>)
    requires
        index < usize::MAX,
        old(progress).converted < u128::MAX,
    ensures
        final(progress).limit == old(progress).limit,
        is_blank(line@) ==> (r matches Ok(LineStep::Skip) && final(progress).converted == old(progress).converted),
        !is_blank(line@) && limit_reached(*old(progress)) ==> (r matches Ok(LineStep::Stop)
            && final(progress).converted == old(progress).converted),
        !is_blank(line@) && !limit_reached(*old(progress)) ==> {
            &&& final(progress).converted == old(progress).converted + 1
            &&& match bullet_read(line@) {
                Ok(board) => r matches Ok(LineStep::Write(b)) && b == board,
                Err(text) => r matches Err(Error::InvalidBulletformat(m)) && m@ == "line "@ + decimal_digits(
                    (index + 1) as nat,
                ) + ": "@ + text,
            }
        },
{
    if str_is_blank(line) {
        return Ok(LineStep::Skip);
    }
    match progress.on_game(1, false) {
        crate::backend::ConvertStep::Stop => Ok(LineStep::Stop),
        crate::backend::ConvertStep::Write(_) => match bullet_board_from_line(line, index)? {
            Some(board) => Ok(LineStep::Write(board)),
            None => Ok(LineStep::Skip),
        },
    }
}

/// Writes are gathered into batches of this many positions.
pub const FLUSH_BATCH_SIZE: usize = 16384;

/// Whether a batch of `buffered` positions is due to be written.
pub fn batch_full(buffered: usize) -> (r: bool)
    ensures
        r == (buffered >= FLUSH_BATCH_SIZE),
{
    buffered >= FLUSH_BATCH_SIZE
}

/// The line written for a game position carries the game result from
/// White's side in its last field: `0.0` when Black won, `0.5` for a draw,
/// `1.0` when White won; before it stand the FEN and the White-relative
/// score, each followed by ` | `.
pub proof fn law_position_line_result(fen: Seq<char>, white_score: int, result: GameResult)
    ensures
        position_line_text(fen, white_score, result) == fen + " | "@ + decimal(white_score) + " | "@ + (match result {
            GameResult::BlackWin => seq!['0', '.', '0'],
            GameResult::Draw => seq!['0', '.', '5'],
            GameResult::WhiteWin => seq!['1', '.', '0'],
        }),
{
    reveal_strlit("0.0");
    reveal_strlit("0.5");
    reveal_strlit("1.0");
    assert("0.0"@ =~= seq!['0', '.', '0']);
    assert("0.5"@ =~= seq!['0', '.', '5']);
    assert("1.0"@ =~= seq!['1', '.', '0']);
}

} // verus!
