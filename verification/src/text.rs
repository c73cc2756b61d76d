use vstd::prelude::*;
use vstd::string::*;

verus! {

broadcast use vstd::string::group_string_axioms;

/// Appends one character to a string.
///
/// Calls `String::push`, which the standard library documents as appending
/// the given `char` to the end of the string.
#[verifier::external_body]
pub(crate) fn push_char(s: &mut String, c: char)
    ensures
        final(s)@ == old(s)@.push(c),
{
    s.push(c);
}

/// A new string holding `prefix` followed by `detail`.
pub fn concat(prefix: &str, detail: &str) -> (s: String)
    ensures
        s@ == prefix@ + detail@,
{
    let mut s = String::from_str(prefix);
    s.append(detail);
    s
}

/// The decimal digit character of `d` (0..=9).
pub open spec fn digit_char(d: int) -> char {
    (48 + d) as char
}

/// Decimal notation of a natural number, without leading zeros.
pub open spec fn decimal_digits(n: nat) -> Seq<char>
    decreases n,
{
    if n < 10 {
        seq![digit_char(n as int)]
    } else {
        decimal_digits(n / 10).push(digit_char((n % 10) as int))
    }
}

/// Decimal notation of an integer, with a leading `-` when it is negative.
pub open spec fn decimal(n: int) -> Seq<char> {
    if n < 0 {
        seq!['-'] + decimal_digits((-n) as nat)
    } else {
        decimal_digits(n as nat)
    }
}

/// Appends the decimal digits of `v`.
pub fn push_decimal_u64(s: &mut String, v: u64)
    ensures
        final(s)@ == old(s)@ + decimal_digits(v as nat),
    decreases v,
{
    if v >= 10 {
        push_decimal_u64(s, v / 10);
    }
    let d: u64 = v % 10;
    let c: char = if d == 0 {
        '0'
    } else if d == 1 {
        '1'
    } else if d == 2 {
        '2'
    } else if d == 3 {
        '3'
    } else if d == 4 {
        '4'
    } else if d == 5 {
        '5'
    } else if d == 6 {
        '6'
    } else if d == 7 {
        '7'
    } else if d == 8 {
        '8'
    } else {
        '9'
    };
    push_char(s, c);
    assert(c == digit_char(d as int));
}

/// Appends `v` in decimal, with a leading `-` when it is negative.
pub fn push_decimal_i64(s: &mut String, v: i64)
    ensures
        final(s)@ == old(s)@ + decimal(v as int),
{
    if v < 0 {
        push_char(s, '-');
        let magnitude: u64 = (0i128 - v as i128) as u64;
        push_decimal_u64(s, magnitude);
        assert(final(s)@ =~= old(s)@ + decimal(v as int));
    } else {
        push_decimal_u64(s, v as u64);
    }
}

/// Whether `c` has the Unicode `White_Space` property, which is what
/// `char::is_whitespace` tests.
pub open spec fn is_whitespace(c: char) -> bool {
    let u = c as u32;
    (9 <= u <= 13) || u == 32 || u == 0x85 || u == 0xA0 || u == 0x1680 || (0x2000 <= u <= 0x200A)
        || u == 0x2028 || u == 0x2029 || u == 0x202F || u == 0x205F || u == 0x3000
}

pub fn char_is_whitespace(c: char) -> (r: bool)
    ensures
        r == is_whitespace(c),
{
    let u = c as u32;
    (9 <= u && u <= 13) || u == 32 || u == 0x85 || u == 0xA0 || u == 0x1680 || (0x2000 <= u && u
        <= 0x200A) || u == 0x2028 || u == 0x2029 || u == 0x202F || u == 0x205F || u == 0x3000
}

/// Scanning `s` left to right: the whitespace-separated tokens already
/// closed, and the token being read.
pub open spec fn scan_tokens(s: Seq<char>) -> (Seq<Seq<char>>, Seq<char>)
    decreases s.len(),
{
    if s.len() == 0 {
        (seq![], seq![])
    } else {
        let (done, cur) = scan_tokens(s.drop_last());
        let c = s.last();
        if is_whitespace(c) {
            if cur.len() > 0 {
                (done.push(cur), seq![])
            } else {
                (done, cur)
            }
        } else {
            (done, cur.push(c))
        }
    }
}

/// The tokens of `s` separated by whitespace, as `str::split_whitespace`
/// yields them.
pub open spec fn split_whitespace_spec(s: Seq<char>) -> Seq<Seq<char>> {
    let (done, cur) = scan_tokens(s);
    if cur.len() > 0 {
        done.push(cur)
    } else {
        done
    }
}


/// Splits `s` into its whitespace-separated tokens.
pub fn split_whitespace(s: &str) -> (v: Vec<String>)
    ensures
        v@.map_values(|t: String| t@) == split_whitespace_spec(s@),
{
    let mut done: Vec<String> = Vec::new();
    let mut cur = String::new();
    let ghost mut seen: Seq<char> = seq![];
    for c in iter: s.chars()
        invariant
            iter.seq() == s@,
            seen == s@.take(iter.index() as int),
            done@.map_values(|t: String| t@) == scan_tokens(seen).0,
            cur@ == scan_tokens(seen).1,
    {
        proof {
            assert(seen.push(c) =~= s@.take(iter.index() + 1));
            assert(seen.push(c).drop_last() =~= seen);
        }
        if char_is_whitespace(c) {
            if !cur.as_str().is_empty() {
                let token = cur;
                cur = String::new();
                done.push(token);
                proof {
                    assert(done@.map_values(|t: String| t@) =~= scan_tokens(seen.push(c)).0);
                }
            }
        } else {
            push_char(&mut cur, c);
        }
        proof {
            seen = seen.push(c);
        }
    }
    assert(seen =~= s@);
    if !cur.as_str().is_empty() {
        done.push(cur);
        assert(done@.map_values(|t: String| t@) =~= split_whitespace_spec(s@));
    }
    done
}

/// Whether two strings hold the same characters.
pub fn str_eq(a: &str, b: &str) -> (r: bool)
    ensures
        r == (a@ == b@),
{
    let a_len = a.unicode_len();
    let b_len = b.unicode_len();
    if a_len != b_len {
        return false;
    }
    let mut i: usize = 0;
    while i < a_len
        invariant
            a_len == a@.len(),
            b_len == b@.len(),
            a_len == b_len,
            i <= a_len,
            forall|j: int| 0 <= j < i ==> a@[j] == b@[j],
        decreases a_len - i,
    {
        if a.get_char(i) != b.get_char(i) {
            return false;
        }
        i += 1;
    }
    assert(a@ =~= b@);
    true
}

/// Whether `s` holds nothing but whitespace (what `s.trim().is_empty()` tests).
pub open spec fn is_blank(s: Seq<char>) -> bool {
    forall|i: int| 0 <= i < s.len() ==> is_whitespace(#[trigger] s[i])
}

} // verus!
