//! Text lines for inspecting game entries and bulletformat positions.
use vstd::prelude::*;
use vstd::string::*;

use crate::model::{GameResult, PositionMoveEval};
use crate::text::{decimal, decimal_digits, digit_char, push_char, push_decimal_i64, push_decimal_u64};

verus! {

broadcast use vstd::string::group_string_axioms;

/// A game result in PGN notation.
pub open spec fn result_text(result: GameResult) -> Seq<char> {
    match result {
        GameResult::WhiteWin => "1-0"@,
        GameResult::Draw => "1/2-1/2"@,
        GameResult::BlackWin => "0-1"@,
    }
}

/// A game result in PGN notation: `1-0`, `1/2-1/2` or `0-1`.
pub fn format_result(result: GameResult) -> (s: &'static str)
    ensures
        s@ == result_text(result),
{
    proof {
        reveal_strlit("1-0");
        reveal_strlit("1/2-1/2");
        reveal_strlit("0-1");
    }
    match result {
        GameResult::WhiteWin => "1-0",
        GameResult::Draw => "1/2-1/2",
        GameResult::BlackWin => "0-1",
    }
}

/// The separator between the fields of an inspected line.
pub open spec fn sep() -> Seq<char> {
    " | "@
}

/// One inspected game entry: `fen | uci | score | ply | result`.
pub open spec fn game_entry_text(position: PositionMoveEval, result: GameResult) -> Seq<char> {
    position.fen@ + sep() + position.uci@ + sep() + decimal(position.score as int) + sep() + decimal(
        position.ply as int,
    ) + sep() + result_text(result)
}

/// Formats a position of a game as one line of text.
pub fn format_game_entry(position: &PositionMoveEval, result: GameResult) -> (s: String)
    ensures
        s@ == game_entry_text(*position, result),
{
    proof {
        reveal_strlit(" | ");
    }
    let mut s = String::from_str(position.fen.as_str());
    s.append(" | ");
    s.append(position.uci.as_str());
    s.append(" | ");
    push_decimal_i64(&mut s, position.score as i64);
    s.append(" | ");
    push_decimal_u64(&mut s, position.ply as u64);
    s.append(" | ");
    s.append(format_result(result));
    assert(s@ =~= game_entry_text(*position, result));
    s
}

/// How many entries an inspection has printed, and the limit on them.
pub struct PrintBudget {
    pub printed: usize,
    pub limit: Option<usize>,
}

impl PrintBudget {
    pub fn new(limit: Option<usize>) -> (b: PrintBudget)
        ensures
            b.printed == 0,
            b.limit == limit,
    {
        PrintBudget { printed: 0, limit }
    }

    /// Decides whether the next entry is printed: not once an interruption
    /// was asked for, nor once the limit is reached. A printed entry is
    /// counted.
    pub fn take(&mut self, interrupted: bool) -> (print: bool)
        requires
            old(self).limit is None ==> old(self).printed < usize::MAX,
        ensures
            final(self).limit == old(self).limit,
            print == (!interrupted && !(old(self).limit matches Some(l) && old(self).printed >= l)),
            final(self).printed == if print { old(self).printed + 1 } else { old(self).printed as int },
    {
        if interrupted {
            return false;
        }
        if let Some(l) = self.limit {
            if self.printed >= l {
                return false;
            }
        }
        self.printed = self.printed + 1;
        true
    }
}

/// A bulletformat board: the occupied squares, the piece codes of the
/// occupied squares in ascending square order (two 4-bit codes per byte,
/// low nibble first), the score and the result (0, 1, 2 for a loss, draw
/// or win of the side to move, counted in half points).
#[derive(Clone, Copy, Debug, PartialEq, Eq)]
pub struct BulletBoard {
    pub occ: u64,
    pub pcs: [u8; 16],
    pub score: i16,
    pub result: u8,
    pub ksq: u8,
    pub opp_ksq: u8,
    pub extra: [u8; 3],
}

/// The FEN letter of a bulletformat piece code (colour in bit 3, type in
/// bits 0..3), `?` for a code that names no piece.
pub open spec fn piece_char_spec(piece: u8) -> char {
    if piece == 0 {
        'P'
    } else if piece == 1 {
        'N'
    } else if piece == 2 {
        'B'
    } else if piece == 3 {
        'R'
    } else if piece == 4 {
        'Q'
    } else if piece == 5 {
        'K'
    } else if piece == 8 {
        'p'
    } else if piece == 9 {
        'n'
    } else if piece == 10 {
        'b'
    } else if piece == 11 {
        'r'
    } else if piece == 12 {
        'q'
    } else if piece == 13 {
        'k'
    } else {
        '?'
    }
}

pub fn bulletformat_piece_char(piece: u8) -> (c: char)
    ensures
        c == piece_char_spec(piece),
{
    match piece {
        0 => 'P',
        1 => 'N',
        2 => 'B',
        3 => 'R',
        4 => 'Q',
        5 => 'K',
        8 => 'p',
        9 => 'n',
        10 => 'b',
        11 => 'r',
        12 => 'q',
        13 => 'k',
        _ => '?',
    }
}

/// Whether square `sq` is occupied.
pub open spec fn occupied(occ: u64, sq: u64) -> bool {
    (occ >> sq) & 1 == 1
}

/// The number of occupied squares below `sq`.
pub open spec fn count_below(occ: u64, sq: nat) -> nat
    decreases sq,
{
    if sq == 0 {
        0
    } else if occupied(occ, (sq - 1) as u64) {
        count_below(occ, (sq - 1) as nat) + 1
    } else {
        count_below(occ, (sq - 1) as nat)
    }
}

/// The `idx`-th 4-bit piece code.
pub open spec fn nibble(pcs: Seq<u8>, idx: int) -> u8 {
    ((pcs[idx / 2] >> ((4 * (idx % 2)) as u8)) & 15) as u8
}

/// The character of square `sq` of a board: its piece's letter, or `1` for
/// an empty square.
pub open spec fn cell(b: BulletBoard, sq: int) -> char {
    if occupied(b.occ, sq as u64) {
        piece_char_spec(nibble(b.pcs@, count_below(b.occ, sq as nat) as int))
    } else {
        '1'
    }
}

/// A run of empty squares, as a digit (nothing for an empty run).
pub open spec fn run_text(empty: nat) -> Seq<char> {
    if empty > 0 {
        seq![digit_char(empty as int)]
    } else {
        seq![]
    }
}

/// One rank of a FEN placement: pieces by letter, runs of empty squares by
/// their length.
pub open spec fn rank_text(cells: Seq<char>, empty: nat) -> Seq<char>
    decreases cells.len(),
{
    if cells.len() == 0 {
        run_text(empty)
    } else if cells[0] == '1' {
        rank_text(cells.drop_first(), empty + 1)
    } else {
        run_text(empty) + seq![cells[0]] + rank_text(cells.drop_first(), 0)
    }
}

/// The ranks `rank` down to 1 of a FEN placement, separated by `/`.
pub open spec fn ranks_text(cells: Seq<char>, rank: int) -> Seq<char>
    decreases rank + 1,
{
    if rank < 0 {
        seq![]
    } else {
        rank_text(cells.subrange(rank * 8, rank * 8 + 8), 0) + (if rank > 0 { seq!['/'] } else { seq![] })
            + ranks_text(cells, rank - 1)
    }
}

/// The squares of a board, a1 to h8.
pub open spec fn board_cells(b: BulletBoard) -> Seq<char> {
    Seq::new(64, |sq: int| cell(b, sq))
}

/// The FEN piece placement of a bulletformat board (from the side to move's
/// point of view, as the board stores it).
pub open spec fn board_placement(b: BulletBoard) -> Seq<char> {
    ranks_text(board_cells(b), 7)
}

/// At most 32 squares are occupied: a board holds 32 piece codes.
pub open spec fn board_readable(b: BulletBoard) -> bool {
    count_below(b.occ, 64) <= 32
}

impl BulletBoard {
    /// Checks `board_readable`: at most 32 squares are occupied.
    pub fn is_readable(&self) -> (r: bool)
        ensures
            r == board_readable(*self),
    {
        let mut count: u64 = 0;
        let mut sq: u64 = 0;
        while sq < 64
            invariant
                sq <= 64,
                count == count_below(self.occ, sq as nat),
                count <= sq,
            decreases 64 - sq,
        {
            if (self.occ >> sq) & 1 == 1 {
                count += 1;
            }
            sq += 1;
        }
        count <= 32
    }
}

fn push_run(s: &mut String, empty: u8)
    requires
        empty <= 9,
    ensures
        final(s)@ == old(s)@ + run_text(empty as nat),
{
    if empty > 0 {
        let c: char = (48 + empty) as char;
        push_char(s, c);
        assert(final(s)@ =~= old(s)@ + run_text(empty as nat));
    } else {
        assert(old(s)@ + run_text(empty as nat) =~= old(s)@);
    }
}

fn push_rank(s: &mut String, cells: &Vec<char>, rank: usize)
    requires
        cells@.len() == 64,
        rank < 8,
    ensures
        final(s)@ == old(s)@ + rank_text(cells@.subrange(rank as int * 8, rank as int * 8 + 8), 0),
{
    let ghost row = cells@.subrange(rank as int * 8, rank as int * 8 + 8);
    let mut empty: u8 = 0;
    let mut file: usize = 0;
    assert(row.subrange(0, 8) =~= row);
    while file < 8
        invariant
            cells@.len() == 64,
            rank < 8,
            row == cells@.subrange(rank as int * 8, rank as int * 8 + 8),
            file <= 8,
            empty <= file,
            s@ + rank_text(row.subrange(file as int, 8), empty as nat) == old(s)@ + rank_text(row, 0),
        decreases 8 - file,
    {
        let c = cells[rank * 8 + file];
        let ghost rest = row.subrange(file as int, 8);
        assert(rest[0] == c);
        assert(rest.drop_first() =~= row.subrange(file as int + 1, 8));
        if c == '1' {
            empty += 1;
        } else {
            push_run(s, empty);
            push_char(s, c);
            empty = 0;
            assert(s@ + rank_text(row.subrange(file as int + 1, 8), 0) =~= old(s)@ + rank_text(row, 0));
        }
        file += 1;
    }
    assert(row.subrange(8, 8) =~= Seq::<char>::empty());
    push_run(s, empty);
    assert(row.subrange(0, 8) =~= row);
}

/// Walks a board with the bulletformat crate's board iterator
/// (`ChessBoard::into_iter`): one `(piece code, square)` pair per occupied
/// square, from a1 upwards, the `k`-th pair holding the `k`-th piece code.
/// It indexes the sixteen bytes of piece codes by half the pair's number, so
/// a board with more than 32 occupied squares is left out.
#[verifier::external_body]
fn bullet_board_pieces(board: &BulletBoard) -> (r: Vec<(u8, u8)>)
    requires
        board_readable(*board),
    ensures
        r@.len() == count_below(board.occ, 64),
        forall|k: int|
            0 <= k < r@.len() ==> {
                &&& (#[trigger] r@[k]).1 < 64
                &&& occupied(board.occ, r@[k].1 as u64)
                &&& count_below(board.occ, r@[k].1 as nat) == k
                &&& r@[k].0 == nibble(board.pcs@, k)
            },
{
    let b = bulletformat::ChessBoard {
        occ: board.occ,
        pcs: board.pcs,
        score: board.score,
        result: board.result,
        ksq: board.ksq,
        opp_ksq: board.opp_ksq,
        extra: board.extra,
    };
    b.into_iter().collect()
}

/// The squares of a board as characters, a1 to h8.
fn decode_cells(board: &BulletBoard) -> (cells: Vec<char>)
    requires
        board_readable(*board),
    ensures
        cells@ == board_cells(*board),
{
    let items = bullet_board_pieces(board);
    let mut cells: Vec<char> = Vec::new();
    let mut sq: usize = 0;
    while sq < 64
        invariant
            sq <= 64,
            cells@.len() == sq,
            forall|i: int| 0 <= i < sq ==> cells@[i] == '1',
        decreases 64 - sq,
    {
        cells.push('1');
        sq += 1;
    }
    let n = items.len();
    let mut j: usize = 0;
    while j < n
        invariant
            j <= n,
            n == items@.len(),
            n == count_below(board.occ, 64),
            cells@.len() == 64,
            forall|k: int|
                0 <= k < items@.len() ==> {
                    &&& (#[trigger] items@[k]).1 < 64
                    &&& occupied(board.occ, items@[k].1 as u64)
                    &&& count_below(board.occ, items@[k].1 as nat) == k
                    &&& items@[k].0 == nibble(board.pcs@, k)
                },
            forall|i: int|
                0 <= i < 64 ==> #[trigger] cells@[i] == (if occupied(board.occ, i as u64) && count_below(
                    board.occ,
                    i as nat,
                ) < j {
                    cell(*board, i)
                } else {
                    '1'
                }),
        decreases n - j,
    {
        let (code, square) = items[j];
        let c = bulletformat_piece_char(code);
        proof {
            assert forall|i: int| 0 <= i < 64 && i != square as int && occupied(board.occ, i as u64)
                implies #[trigger] count_below(board.occ, i as nat) != j by {
                if i < square as int {
                    lemma_count_below_monotone(board.occ, i as nat, square as nat);
                } else {
                    lemma_count_below_monotone(board.occ, square as nat, i as nat);
                }
            }
        }
        cells.set(square as usize, c);
        j += 1;
    }
    proof {
        assert forall|i: int| 0 <= i < 64 && occupied(board.occ, i as u64)
            implies #[trigger] count_below(board.occ, i as nat) < j by {
            lemma_count_below_monotone(board.occ, i as nat, 64);
        }
    }
    assert(cells@ =~= board_cells(*board));
    cells
}

proof fn lemma_count_below_monotone(occ: u64, a: nat, b: nat)
    requires
        a <= b,
    ensures
        count_below(occ, a) <= count_below(occ, b),
        a < b ==> count_below(occ, a) + (if occupied(occ, a as u64) { 1nat } else { 0nat }) <= count_below(
            occ,
            b,
        ),
    decreases b - a,
{
    if a < b {
        lemma_count_below_monotone(occ, a, (b - 1) as nat);
    }
}

/// The FEN piece placement of a bulletformat board.
pub fn bulletformat_board_fen(board: &BulletBoard) -> (fen: String)
    requires
        board_readable(*board),
    ensures
        fen@ == board_placement(*board),
{
    let cells = decode_cells(board);
    let mut fen = String::new();
    let mut step: usize = 0;
    while step < 8
        invariant
            step <= 8,
            cells@ == board_cells(*board),
            fen@ + ranks_text(cells@, 7 - step as int) == ranks_text(cells@, 7),
        decreases 8 - step,
    {
        let rank = 7 - step;
        push_rank(&mut fen, &cells, rank);
        if rank > 0 {
            push_char(&mut fen, '/');
        }
        step += 1;
    }
    assert(ranks_text(cells@, -1) =~= Seq::<char>::empty());
    assert(fen@ =~= board_placement(*board));
    fen
}

/// The result of a board written with one decimal: half the stored value.
pub open spec fn half_points_text(result: u8) -> Seq<char> {
    decimal_digits((result / 2) as nat) + seq!['.'] + (if result % 2 == 1 { seq!['5'] } else { seq!['0'] })
}

/// One bulletformat position as text: `placement w - - 0 1 | score | result`.
pub open spec fn bullet_entry_text(b: BulletBoard) -> Seq<char> {
    board_placement(b) + " w - - 0 1"@ + sep() + decimal(b.score as int) + sep() + half_points_text(b.result)
}

/// Formats a bulletformat position as a line of the bullet plain-text
/// format, from the side to move's point of view.
pub fn format_bulletformat_entry(board: &BulletBoard) -> (s: String)
    requires
        board_readable(*board),
    ensures
        s@ == bullet_entry_text(*board),
{
    proof {
        reveal_strlit(" w - - 0 1");
        reveal_strlit(" | ");
    }
    let mut s = bulletformat_board_fen(board);
    s.append(" w - - 0 1");
    s.append(" | ");
    push_decimal_i64(&mut s, board.score as i64);
    s.append(" | ");
    push_decimal_u64(&mut s, (board.result / 2) as u64);
    push_char(&mut s, '.');
    if board.result % 2 == 1 {
        push_char(&mut s, '5');
    } else {
        push_char(&mut s, '0');
    }
    assert(s@ =~= bullet_entry_text(*board));
    s
}

} // verus!
