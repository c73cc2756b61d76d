//! Which FEN texts viriformat's `Board::set_from_fen` reads without
//! panicking, found by one scan of the text.
use vstd::prelude::*;

verus! {

/// What a scan of a number field has seen: its length, the number of its
/// digits, its value (capped at 2^32), and whether it is so far an
/// optional `+` followed by digits.
#[derive(Clone, Copy)]
pub struct NumberScan {
    pub len: u64,
    pub digits: u64,
    pub value: u64,
    pub ok: bool,
}

pub const NUMBER_CAP: u64 = 0x1_0000_0000;

pub open spec fn number_start() -> NumberScan {
    NumberScan { len: 0, digits: 0, value: 0, ok: true }
}

/// One more character of a number field, as `u8::from_str` and
/// `usize::from_str` read it: a leading `+`, then decimal digits.
pub open spec fn number_step(n: NumberScan, c: char) -> NumberScan {
    let len = if n.len < 2 { (n.len + 1) as u64 } else { 2 };
    if n.len == 0 && c == '+' {
        NumberScan { len, digits: 0, value: 0, ok: true }
    } else if '0' <= c <= '9' {
        let v = n.value * 10 + (c as u64 - 48);
        NumberScan {
            len,
            digits: if n.digits < 1 { 1 } else { n.digits },
            value: if v < NUMBER_CAP { v as u64 } else { NUMBER_CAP },
            ok: n.ok,
        }
    } else {
        NumberScan { len, digits: n.digits, value: n.value, ok: false }
    }
}

/// The value the field parses to, if it parses.
pub open spec fn number_value(n: NumberScan) -> Option<nat> {
    if n.ok && n.digits > 0 {
        Some(n.value as nat)
    } else {
        None
    }
}

/// What a scan of a FEN has seen: whether a character is not ASCII,
/// whether it is still in the piece placement (before the first space),
/// the number of `/`, `K` and `k` there (capped), the files that the
/// current rank has filled (capped) and whether a rank has filled more than
/// eight, the space-separated field it is in after that, the en passant
/// field's first two characters and length, and the halfmove and fullmove
/// fields.
#[derive(Clone, Copy)]
pub struct FenScan {
    pub non_ascii: bool,
    pub in_board: bool,
    pub slashes: u64,
    pub white_kings: u64,
    pub black_kings: u64,
    pub files: u64,
    pub overfull: bool,
    pub field: u64,
    pub ep_len: u64,
    pub ep_file: char,
    pub ep_rank: char,
    pub halfmove: NumberScan,
    pub fullmove: NumberScan,
}

pub open spec fn fen_start() -> FenScan {
    FenScan {
        non_ascii: false,
        in_board: true,
        slashes: 0,
        white_kings: 0,
        black_kings: 0,
        files: 0,
        overfull: false,
        field: 0,
        ep_len: 0,
        ep_file: ' ',
        ep_rank: ' ',
        halfmove: number_start(),
        fullmove: number_start(),
    }
}

pub open spec fn capped_inc(x: u64, cap: u64) -> u64 {
    if x < cap { (x + 1) as u64 } else { cap }
}

/// The files a character of the piece placement fills: a digit's value,
/// one for anything else.
pub open spec fn files_of(c: char) -> u64 {
    if '1' <= c <= '8' {
        (c as u64 - 48) as u64
    } else {
        1
    }
}

/// One more character of a FEN.
pub open spec fn fen_step(s: FenScan, c: char) -> FenScan {
    let s = if (c as u32) >= 128 { FenScan { non_ascii: true, ..s } } else { s };
    if s.in_board {
        if c == ' ' {
            FenScan { in_board: false, ..s }
        } else if c == '/' {
            FenScan { slashes: capped_inc(s.slashes, 8), files: 0, ..s }
        } else {
            let s = FenScan {
                files: if s.files + files_of(c) > 9 { 9 } else { (s.files + files_of(c)) as u64 },
                overfull: s.overfull || s.files + files_of(c) > 8,
                ..s
            };
            if c == 'K' {
                FenScan { white_kings: capped_inc(s.white_kings, 2), ..s }
            } else if c == 'k' {
                FenScan { black_kings: capped_inc(s.black_kings, 2), ..s }
            } else {
                s
            }
        }
    } else if c == ' ' {
        FenScan { field: capped_inc(s.field, 5), ..s }
    } else if s.field == 2 {
        FenScan {
            ep_len: capped_inc(s.ep_len, 3),
            ep_file: if s.ep_len == 0 { c } else { s.ep_file },
            ep_rank: if s.ep_len == 1 { c } else { s.ep_rank },
            ..s
        }
    } else if s.field == 3 {
        FenScan { halfmove: number_step(s.halfmove, c), ..s }
    } else if s.field == 4 {
        FenScan { fullmove: number_step(s.fullmove, c), ..s }
    } else {
        s
    }
}

/// The scan of a whole text.
pub open spec fn fen_scan(text: Seq<char>) -> FenScan
    decreases text.len(),
{
    if text.len() == 0 {
        fen_start()
    } else {
        fen_step(fen_scan(text.drop_last()), text.last())
    }
}

/// Whether `Board::set_from_fen` (standard chess) reads a text into a
/// board that the rest of viriformat can use without panicking (line
/// numbers of viriformat 3.0.0, `chess/board/mod.rs`). A text that is not
/// ASCII (line 621) or has no space is refused with an error, before any of
/// the following. Otherwise the parser panics on more than seven `/` in the
/// piece placement (`rank.sub(1).unwrap()`, line 660) and, in debug builds,
/// on an en passant field of two characters below `a` and `1` (byte
/// subtractions, lines 859 and 860), on a halfmove clock above 100 (asserted
/// at line 322 when the keys are computed), on a fullmove number of 0 or one
/// that overflows twice over (line 907), and without exactly one king of
/// each colour (asserted at lines 251 and 252 when the threats are computed,
/// line 697). A rank of more than eight files puts its last pieces on the h
/// file one over another (line 678), which leaves the board's tables in
/// disagreement, as `check_validity` asserts before every move in debug
/// builds. The king, clock and number checks are only reached when the rest
/// parses; this test asks for them in any case, and asks for one `K` and one
/// `k` letter, which may leave out a few texts that do not panic.
pub open spec fn viri_fen_safe(text: Seq<char>) -> bool {
    let s = fen_scan(text);
    ||| s.non_ascii
    ||| s.in_board
    ||| {
        &&& s.slashes <= 7
        &&& !s.overfull
        &&& s.white_kings == 1
        &&& s.black_kings == 1
        &&& s.ep_len == 2 ==> (s.ep_file >= 'a' && s.ep_rank >= '1')
        &&& number_value(s.halfmove) matches Some(v) ==> !(100 < v <= 255)
        &&& number_value(s.fullmove) matches Some(v) ==> 1 <= v <= 0x8000_0000
    }
}

fn number_next(n: NumberScan, c: char) -> (r: NumberScan)
    requires
        n.value <= NUMBER_CAP,
    ensures
        r == number_step(n, c),
        r.value <= NUMBER_CAP,
{
    let len: u64 = if n.len < 2 { n.len + 1 } else { 2 };
    if n.len == 0 && c == '+' {
        NumberScan { len, digits: 0, value: 0, ok: true }
    } else if '0' <= c && c <= '9' {
        let d: u64 = (c as u32 - 48) as u64;
        let v: u64 = n.value * 10 + d;
        NumberScan {
            len,
            digits: if n.digits < 1 { 1 } else { n.digits },
            value: if v < NUMBER_CAP { v } else { NUMBER_CAP },
            ok: n.ok,
        }
    } else {
        NumberScan { len, digits: n.digits, value: n.value, ok: false }
    }
}

fn inc(x: u64, cap: u64) -> (r: u64)
    ensures
        r == capped_inc(x, cap),
{
    if x < cap {
        x + 1
    } else {
        cap
    }
}

/// Checks `viri_fen_safe`.
pub fn fen_is_safe(text: &str) -> (r: bool)
    ensures
        r == viri_fen_safe(text@),
{
    let mut s = FenScan {
        non_ascii: false,
        in_board: true,
        slashes: 0,
        white_kings: 0,
        black_kings: 0,
        files: 0,
        overfull: false,
        field: 0,
        ep_len: 0,
        ep_file: ' ',
        ep_rank: ' ',
        halfmove: NumberScan { len: 0, digits: 0, value: 0, ok: true },
        fullmove: NumberScan { len: 0, digits: 0, value: 0, ok: true },
    };
    let ghost chars = text@;
    for c in iter: text.chars()
        invariant
            iter.seq() == chars,
            s == fen_scan(chars.take(iter.index() as int)),
            s.halfmove.value <= NUMBER_CAP,
            s.fullmove.value <= NUMBER_CAP,
            s.files <= 9,
    {
        proof {
            assert(chars.take(iter.index() as int + 1).drop_last() =~= chars.take(iter.index() as int));
        }
        if (c as u32) >= 128 {
            s.non_ascii = true;
        }
        if s.in_board {
            if c == ' ' {
                s.in_board = false;
            } else if c == '/' {
                s.slashes = inc(s.slashes, 8);
                s.files = 0;
            } else {
                let add: u64 = if '1' <= c && c <= '8' {
                    (c as u32 - 48) as u64
                } else {
                    1
                };
                if s.files + add > 8 {
                    s.overfull = true;
                }
                s.files = if s.files + add > 9 {
                    9
                } else {
                    s.files + add
                };
                if c == 'K' {
                    s.white_kings = inc(s.white_kings, 2);
                } else if c == 'k' {
                    s.black_kings = inc(s.black_kings, 2);
                }
            }
        } else if c == ' ' {
            s.field = inc(s.field, 5);
        } else if s.field == 2 {
            if s.ep_len == 0 {
                s.ep_file = c;
            }
            if s.ep_len == 1 {
                s.ep_rank = c;
            }
            s.ep_len = inc(s.ep_len, 3);
        } else if s.field == 3 {
            s.halfmove = number_next(s.halfmove, c);
        } else if s.field == 4 {
            s.fullmove = number_next(s.fullmove, c);
        }
    }
    proof {
        assert(chars.take(chars.len() as int) =~= chars);
    }
    let half_ok = if s.halfmove.ok && s.halfmove.digits > 0 {
        !(100 < s.halfmove.value && s.halfmove.value <= 255)
    } else {
        true
    };
    let full_ok = if s.fullmove.ok && s.fullmove.digits > 0 {
        1 <= s.fullmove.value && s.fullmove.value <= 0x8000_0000
    } else {
        true
    };
    s.non_ascii || s.in_board || (s.slashes <= 7 && !s.overfull && s.white_kings == 1 && s.black_kings == 1 && (s.ep_len != 2
        || (s.ep_file >= 'a' && s.ep_rank >= '1')) && half_ok && full_ok)
}

} // verus!
