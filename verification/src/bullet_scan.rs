//! Which bullet plain-text lines bulletformat's `ChessBoard::from_str`
//! reads without panicking, found by one scan of the line.
use vstd::prelude::*;

use crate::text::{char_is_whitespace, decimal, decimal_digits, digit_char, is_whitespace};

verus! {

/// What a scan of a line has seen. `part` counts the `|` separators
/// (capped at 2). Within the first part, `token` is the whitespace-separated
/// token being read (0 before the first, 1 the placement, 2 between, 3 the
/// side to move, 4 after it), with the placement's rows (`/` count, capped)
/// and the largest number of squares any row fills (capped), and the side
/// to move's length and first character. In the second part, the score's
/// characters once trimmed: whether it is a `-` followed by digits whose
/// value (capped) is 32768, and how many non-whitespace characters came
/// since that form broke.
#[derive(Clone, Copy)]
pub struct LineScan {
    pub part: u64,
    pub token: u64,
    pub rows: u64,
    pub row_fill: u64,
    pub max_fill: u64,
    pub side_len: u64,
    pub side_first: char,
    pub score_started: bool,
    pub score_minus: bool,
    pub score_digits: u64,
    pub score_value: u64,
    pub score_form: bool,
    pub score_gap: bool,
}

pub open spec fn line_start() -> LineScan {
    LineScan {
        part: 0,
        token: 0,
        rows: 1,
        row_fill: 0,
        max_fill: 0,
        side_len: 0,
        side_first: ' ',
        score_started: false,
        score_minus: false,
        score_digits: 0,
        score_value: 0,
        score_form: true,
        score_gap: false,
    }
}

pub open spec fn cap(x: int, c: u64) -> u64 {
    if x < c { x as u64 } else { c }
}

/// The squares a placement character fills: a digit 1 to 8 its value, a piece
/// letter one, anything else none.
pub open spec fn fill_of(c: char) -> int {
    if '1' <= c <= '8' {
        c as int - 48
    } else if c == 'P' || c == 'N' || c == 'B' || c == 'R' || c == 'Q' || c == 'K' || c == 'p' || c == 'n' || c
        == 'b' || c == 'r' || c == 'q' || c == 'k' {
        1
    } else {
        0
    }
}

/// One more character of a line.
pub open spec fn line_step(s: LineScan, c: char) -> LineScan {
    if c == '|' {
        LineScan { part: cap(s.part + 1, 2), ..s }
    } else if s.part == 0 {
        if is_whitespace(c) {
            LineScan { token: if s.token == 1 || s.token == 3 { (s.token + 1) as u64 } else { s.token }, ..s }
        } else if s.token == 0 || s.token == 1 {
            if c == '/' {
                LineScan { token: 1, rows: cap(s.rows + 1, 10), row_fill: 0, ..s }
            } else {
                let fill = cap(s.row_fill + fill_of(c), 20);
                LineScan { token: 1, row_fill: fill, max_fill: if fill > s.max_fill { fill } else { s.max_fill }, ..s }
            }
        } else if s.token == 2 || s.token == 3 {
            LineScan {
                token: 3,
                side_len: cap(s.side_len + 1, 2),
                side_first: if s.side_len == 0 { c } else { s.side_first },
                ..s
            }
        } else {
            s
        }
    } else if s.part == 1 {
        if is_whitespace(c) {
            LineScan { score_gap: s.score_started, ..s }
        } else if !s.score_started && c == '-' {
            LineScan { score_started: true, score_minus: true, ..s }
        } else if '0' <= c <= '9' && !s.score_gap {
            LineScan {
                score_started: true,
                score_digits: cap(s.score_digits + 1, 1),
                score_value: cap(s.score_value * 10 + (c as int - 48), 100000),
                ..s
            }
        } else {
            LineScan { score_started: true, score_form: false, ..s }
        }
    } else {
        s
    }
}

/// The scan of a whole line.
pub open spec fn line_scan(text: Seq<char>) -> LineScan
    decreases text.len(),
{
    if text.len() == 0 {
        line_start()
    } else {
        line_step(line_scan(text.drop_last()), text.last())
    }
}

/// Whether `ChessBoard::from_str` reads a line without panicking. It stops
/// with an error before any panic when the line has fewer than two `|`.
/// Otherwise it panics (in a build with overflow checks) when the side to
/// move is `b` and the placement has more than eight rows (the row index
/// goes below zero), when a piece lands beyond the 64th square (a shift
/// overflows), and when the side to move is `b` and the score is -32768
/// (its negation overflows). This test asks for at most eight rows, none
/// filling more than eight squares, and no score of -32768 for `b`, which
/// leaves out a few lines that do not panic.
pub open spec fn bullet_line_safe(text: Seq<char>) -> bool {
    let s = line_scan(text);
    let black = s.side_len == 1 && s.side_first == 'b';
    ||| s.part < 2
    ||| {
        &&& s.rows <= 8
        &&& s.max_fill <= 8
        &&& black ==> !(s.score_form && s.score_minus && s.score_digits > 0 && s.score_value == 32768)
    }
}

fn capped(x: u64, c: u64) -> (r: u64)
    requires
        x <= u64::MAX / 16,
    ensures
        r == cap(x as int, c),
{
    if x < c {
        x
    } else {
        c
    }
}

/// Checks `bullet_line_safe`.
pub fn bullet_line_is_safe(text: &str) -> (r: bool)
    ensures
        r == bullet_line_safe(text@),
{
    let mut s = LineScan {
        part: 0,
        token: 0,
        rows: 1,
        row_fill: 0,
        max_fill: 0,
        side_len: 0,
        side_first: ' ',
        score_started: false,
        score_minus: false,
        score_digits: 0,
        score_value: 0,
        score_form: true,
        score_gap: false,
    };
    let ghost chars = text@;
    for c in iter: text.chars()
        invariant
            iter.seq() == chars,
            s == line_scan(chars.take(iter.index() as int)),
            s.part <= 2,
            s.rows <= 10,
            s.row_fill <= 20,
            s.max_fill <= 20,
            s.side_len <= 2,
            s.score_value <= 100000,
            s.score_digits <= 1,
            s.token <= 4,
    {
        proof {
            assert(chars.take(iter.index() as int + 1).drop_last() =~= chars.take(iter.index() as int));
        }
        let ws = char_is_whitespace(c);
        if c == '|' {
            s.part = capped(s.part + 1, 2);
        } else if s.part == 0 {
            if ws {
                if s.token == 1 || s.token == 3 {
                    s.token = s.token + 1;
                }
            } else if s.token == 0 || s.token == 1 {
                if c == '/' {
                    s.token = 1;
                    s.rows = capped(s.rows + 1, 10);
                    s.row_fill = 0;
                } else {
                    let f: u64 = if '1' <= c && c <= '8' {
                        (c as u32 - 48) as u64
                    } else if c == 'P' || c == 'N' || c == 'B' || c == 'R' || c == 'Q' || c == 'K' || c == 'p'
                        || c == 'n' || c == 'b' || c == 'r' || c == 'q' || c == 'k' {
                        1
                    } else {
                        0
                    };
                    let fill = capped(s.row_fill + f, 20);
                    s.token = 1;
                    s.row_fill = fill;
                    if fill > s.max_fill {
                        s.max_fill = fill;
                    }
                }
            } else if s.token == 2 || s.token == 3 {
                if s.side_len == 0 {
                    s.side_first = c;
                }
                s.token = 3;
                s.side_len = capped(s.side_len + 1, 2);
            }
        } else if s.part == 1 {
            if ws {
                s.score_gap = s.score_started;
            } else if !s.score_started && c == '-' {
                s.score_started = true;
                s.score_minus = true;
            } else if '0' <= c && c <= '9' && !s.score_gap {
                s.score_started = true;
                s.score_digits = capped(s.score_digits + 1, 1);
                s.score_value = capped(s.score_value * 10 + (c as u32 - 48) as u64, 100000);
            } else {
                s.score_started = true;
                s.score_form = false;
            }
        }
    }
    proof {
        assert(chars.take(chars.len() as int) =~= chars);
    }
    let black = s.side_len == 1 && s.side_first == 'b';
    s.part < 2 || (s.rows <= 8 && s.max_fill <= 8 && !(black && s.score_form && s.score_minus && s.score_digits > 0
        && s.score_value == 32768))
}

/// The scan of `t` continued from the state `s`.
pub open spec fn scan_from(s: LineScan, t: Seq<char>) -> LineScan
    decreases t.len(),
{
    if t.len() == 0 {
        s
    } else {
        line_step(scan_from(s, t.drop_last()), t.last())
    }
}

proof fn lemma_scan_concat(a: Seq<char>, b: Seq<char>)
    ensures
        line_scan(a + b) == scan_from(line_scan(a), b),
    decreases b.len(),
{
    if b.len() == 0 {
        assert(a + b =~= a);
    } else {
        lemma_scan_concat(a, b.drop_last());
        assert((a + b).drop_last() =~= a + b.drop_last());
        assert((a + b).last() == b.last());
    }
}

proof fn lemma_scan_from_concat(s: LineScan, b: Seq<char>, c: Seq<char>)
    ensures
        scan_from(s, b + c) == scan_from(scan_from(s, b), c),
    decreases c.len(),
{
    if c.len() == 0 {
        assert(b + c =~= b);
    } else {
        lemma_scan_from_concat(s, b, c.drop_last());
        assert((b + c).drop_last() =~= b + c.drop_last());
        assert((b + c).last() == c.last());
    }
}

proof fn lemma_scan_one(s: LineScan, x: char)
    ensures
        scan_from(s, seq![x]) == line_step(s, x),
{
    let t = seq![x];
    assert(t.drop_last() =~= Seq::<char>::empty());
    assert(scan_from(s, t.drop_last()) == s);
    assert(t.last() == x);
    assert(scan_from(s, t) == line_step(scan_from(s, t.drop_last()), t.last()));
}

proof fn lemma_scan_three(s: LineScan, x: char, y: char, z: char)
    ensures
        scan_from(s, seq![x, y, z]) == line_step(line_step(line_step(s, x), y), z),
{
    lemma_scan_one(s, x);
    assert(seq![x, y].drop_last() =~= seq![x]);
    assert(scan_from(s, seq![x, y]) == line_step(scan_from(s, seq![x]), y));
    assert(seq![x, y, z].drop_last() =~= seq![x, y]);
    assert(scan_from(s, seq![x, y, z]) == line_step(scan_from(s, seq![x, y]), z));
}

/// Past the second `|` nothing changes the scan.
proof fn lemma_part_two(s: LineScan, t: Seq<char>)
    requires
        s.part == 2,
    ensures
        scan_from(s, t) == s,
    decreases t.len(),
{
    if t.len() > 0 {
        lemma_part_two(s, t.drop_last());
    }
}

/// Before the first `|` the score fields keep their first values.
proof fn lemma_part_zero(t: Seq<char>)
    ensures
        line_scan(t).part <= 2,
        line_scan(t).part == 0 ==> {
            &&& !line_scan(t).score_started
            &&& !line_scan(t).score_minus
            &&& line_scan(t).score_value == 0
            &&& !line_scan(t).score_gap
        },
    decreases t.len(),
{
    if t.len() > 0 {
        lemma_part_zero(t.drop_last());
    }
}

/// Reading the decimal digits of `n` in the score field gives a value of
/// at most `n`, and leaves the rest of the scan as it was.
proof fn lemma_scan_digits(s: LineScan, n: nat)
    requires
        s.part == 1,
        !s.score_gap,
        s.score_value == 0,
    ensures
        ({
            let t = scan_from(s, decimal_digits(n));
            &&& t.part == 1
            &&& !t.score_gap
            &&& t.score_value <= n
            &&& t.score_minus == s.score_minus
            &&& t.rows == s.rows
            &&& t.max_fill == s.max_fill
            &&& t.side_len == s.side_len
            &&& t.side_first == s.side_first
        }),
    decreases n,
{
    if n < 10 {
        let c = digit_char(n as int);
        assert(decimal_digits(n) == seq![c]);
        lemma_scan_one(s, c);
        assert(c as int == 48 + n);
    } else {
        lemma_scan_digits(s, n / 10);
        let prev = scan_from(s, decimal_digits(n / 10));
        let c = digit_char((n % 10) as int);
        assert(decimal_digits(n) == decimal_digits(n / 10).push(c));
        assert(decimal_digits(n).drop_last() =~= decimal_digits(n / 10));
        assert(c as int == 48 + n % 10);
        let v = prev.score_value as int;
        assert(v * 10 + n % 10 <= n) by (nonlinear_arith)
            requires
                0 <= v <= n / 10,
        ;
    }
}

/// What a line of a FEN, a score of at most 32767 either way and any rest
/// scans to: past the second `|`, the placement and side to move as read
/// from the FEN, and no score of -32768.
proof fn lemma_line_state(fen: Seq<char>, x: int, tail: Seq<char>)
    requires
        -32767 <= x <= 32767,
    ensures
        ({
            let s1 = line_scan(fen + " | "@);
            let f = line_scan(fen + " | "@ + decimal(x) + " | "@ + tail);
            &&& f.part == 2
            &&& line_scan(fen).part == 0 ==> f.rows == line_scan(fen).rows && f.max_fill == line_scan(fen).max_fill
            &&& f.rows == s1.rows
            &&& f.max_fill == s1.max_fill
            &&& f.side_len == s1.side_len
            &&& f.side_first == s1.side_first
            &&& line_scan(fen).part >= 1 ==> f == s1
            &&& line_scan(fen).part == 0 ==> !(f.score_form && f.score_minus && f.score_digits > 0
                && f.score_value == 32768)
        }),
{
    reveal_strlit(" | ");
    let bar = " | "@;
    assert(bar =~= seq![' ', '|', ' ']);
    let s0 = line_scan(fen);
    lemma_part_zero(fen);
    lemma_scan_concat(fen, bar);
    lemma_scan_three(s0, ' ', '|', ' ');
    let s1 = line_scan(fen + bar);
    let d = decimal(x);
    lemma_scan_concat(fen + bar, d);
    let s2 = scan_from(s1, d);
    lemma_scan_concat(fen + bar + d, bar);
    lemma_scan_three(s2, ' ', '|', ' ');
    let s3 = line_scan(fen + bar + d + bar);
    lemma_scan_concat(fen + bar + d + bar, tail);
    if s0.part >= 1 {
        assert(s1.part == 2);
        lemma_part_two(s1, d);
        assert(s3 == s1);
        lemma_part_two(s3, tail);
    } else {
        assert(s1.part == 1);
        if x < 0 {
            let n = (-x) as nat;
            assert(d =~= seq!['-'] + decimal_digits(n));
            lemma_scan_from_concat(s1, seq!['-'], decimal_digits(n));
            lemma_scan_one(s1, '-');
            let sm = line_step(s1, '-');
            assert(sm.score_minus && sm.part == 1 && !sm.score_gap && sm.score_value == 0);
            lemma_scan_digits(sm, n);
        } else {
            assert(d == decimal_digits(x as nat));
            lemma_scan_digits(s1, x as nat);
        }
        assert(s3.part == 2);
        lemma_part_two(s3, tail);
    }
}

/// Whether the board parser reads a line without panicking does not depend
/// on the line's score or result as long as the score is not -32768: two
/// lines of the same FEN, each with a decimal score from -32767 to 32767
/// and any rest, are both read safely or both not (in particular a negative
/// score with Black to move is read like any other). For a FEN without `|`
/// such a line is read safely exactly when its placement has at most eight
/// rows, none filling more than eight squares, whichever side is to move.
pub proof fn law_line_safety_ignores_score(fen: Seq<char>, a: int, b: int, rest_a: Seq<char>, rest_b: Seq<char>)
    requires
        -32767 <= a <= 32767,
        -32767 <= b <= 32767,
    ensures
        bullet_line_safe(fen + " | "@ + decimal(a) + " | "@ + rest_a) == bullet_line_safe(
            fen + " | "@ + decimal(b) + " | "@ + rest_b,
        ),
        line_scan(fen).part == 0 ==> (bullet_line_safe(fen + " | "@ + decimal(a) + " | "@ + rest_a) <==> (
        line_scan(fen).rows <= 8 && line_scan(fen).max_fill <= 8)),
{
    lemma_line_state(fen, a, rest_a);
    lemma_line_state(fen, b, rest_b);
}

} // verus!
