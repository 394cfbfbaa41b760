//! Decimal rendering and parsing of the integers that appear in commands
//! and status messages.

use vstd::prelude::*;

use crate::text::chars_to_string;
use crate::text::str_chars;

verus! {

/// The character for one decimal digit.
pub open spec fn digit_char(d: int) -> char
    recommends
        0 <= d < 10,
{
    if d == 0 {
        '0'
    } else if d == 1 {
        '1'
    } else if d == 2 {
        '2'
    } else if d == 3 {
        '3'
    } else if d == 4 {
        '4'
    } else if d == 5 {
        '5'
    } else if d == 6 {
        '6'
    } else if d == 7 {
        '7'
    } else if d == 8 {
        '8'
    } else {
        '9'
    }
}

fn digit_char_c(d: u64) -> (r: char)
    requires
        d < 10,
    ensures
        r == digit_char(d as int),
{
    match d {
        0 => '0',
        1 => '1',
        2 => '2',
        3 => '3',
        4 => '4',
        5 => '5',
        6 => '6',
        7 => '7',
        8 => '8',
        _ => '9',
    }
}

/// The decimal digits of a non-negative number, most significant first.
pub open spec fn dec_digits(n: int) -> Seq<char>
    recommends
        n >= 0,
    decreases n,
{
    if n < 10 {
        seq![digit_char(n)]
    } else {
        dec_digits(n / 10) + seq![digit_char(n % 10)]
    }
}

/// A number rendered with at least two digits, zero-padded.
pub open spec fn pad2(n: int) -> Seq<char>
    recommends
        n >= 0,
{
    if n < 10 {
        seq!['0'] + dec_digits(n)
    } else {
        dec_digits(n)
    }
}

/// Appends the decimal rendering of `n`.
pub fn push_dec_u64(n: u64, out: &mut Vec<char>)
    ensures
        final(out)@ == old(out)@ + dec_digits(n as int),
    decreases n,
{
    if n < 10 {
        out.push(digit_char_c(n));
        proof {
            assert(out@ =~= old(out)@ + dec_digits(n as int));
        }
    } else {
        push_dec_u64(n / 10, out);
        out.push(digit_char_c(n % 10));
        proof {
            assert(out@ =~= old(out)@ + dec_digits(n as int));
        }
    }
}

/// Appends the decimal rendering of `n`, zero-padded to two digits.
pub fn push_pad2(n: u64, out: &mut Vec<char>)
    ensures
        final(out)@ == old(out)@ + pad2(n as int),
{
    if n < 10 {
        out.push('0');
    }
    push_dec_u64(n, out);
    proof {
        if n < 10 {
            assert(out@ =~= old(out)@ + pad2(n as int));
        }
    }
}

/// The decimal rendering of `n` as a string.
pub fn u64_dec_string(n: u64) -> (r: String)
    ensures
        r@ == dec_digits(n as int),
{
    let mut out: Vec<char> = Vec::new();
    push_dec_u64(n, &mut out);
    proof {
        assert(out@ =~= dec_digits(n as int));
    }
    chars_to_string(&out)
}

/// The decimal rendering of a signed number: a minus sign before the
/// magnitude when negative.
pub open spec fn dec_signed(n: int) -> Seq<char> {
    if n < 0 {
        seq!['-'] + dec_digits(-n)
    } else {
        dec_digits(n)
    }
}

/// The decimal rendering of `n` as a string, with a sign when negative.
pub fn i64_dec_string(n: i64) -> (r: String)
    ensures
        r@ == dec_signed(n as int),
{
    let mut out: Vec<char> = Vec::new();
    if n < 0 {
        out.push('-');
        let wide: i128 = n as i128;
        let mag: u64 = (-wide) as u64;
        push_dec_u64(mag, &mut out);
        proof {
            assert(out@ =~= dec_signed(n as int));
        }
    } else {
        push_dec_u64(n as u64, &mut out);
    }
    chars_to_string(&out)
}

/// A decimal digit.
pub open spec fn is_digit(c: char) -> bool {
    48 <= c as u32 <= 57
}

/// The numeric value of a digit character.
pub open spec fn digit_val(c: char) -> int {
    c as u32 - 48
}

/// A non-empty, all-digit sequence.
pub open spec fn all_digits(s: Seq<char>) -> bool {
    s.len() > 0 && forall|k: int| 0 <= k < s.len() ==> is_digit(s[k])
}

/// The number written by a digit sequence.
pub open spec fn digits_val(s: Seq<char>) -> int
    decreases s.len(),
{
    if s.len() == 0 {
        0
    } else {
        digits_val(s.drop_last()) * 10 + digit_val(s.last())
    }
}

proof fn lemma_digits_val_nonneg(s: Seq<char>)
    requires
        forall|k: int| 0 <= k < s.len() ==> is_digit(s[k]),
    ensures
        digits_val(s) >= 0,
    decreases s.len(),
{
    if s.len() > 0 {
        lemma_digits_val_nonneg(s.drop_last());
    }
}

proof fn lemma_digits_val_prefix_le(s: Seq<char>, j: int)
    requires
        forall|k: int| 0 <= k < s.len() ==> is_digit(s[k]),
        0 <= j <= s.len(),
    ensures
        digits_val(s.subrange(0, j)) <= digits_val(s),
    decreases s.len() - j,
{
    if j == s.len() {
        assert(s.subrange(0, j) =~= s);
    } else {
        let t = s.subrange(0, j + 1);
        assert(t.drop_last() =~= s.subrange(0, j));
        lemma_digits_val_nonneg(s.subrange(0, j));
        assert(digits_val(s.subrange(0, j)) <= digits_val(t));
        lemma_digits_val_prefix_le(s, j + 1);
    }
}

/// The number parsed from an unsigned decimal string: an optional leading
/// `+`, then digits; out-of-range values are rejected.
pub open spec fn parse_u64_spec(s: Seq<char>) -> Option<u64> {
    let ds = if s.len() > 0 && s[0] == '+' {
        s.drop_first()
    } else {
        s
    };
    if all_digits(ds) && digits_val(ds) <= u64::MAX {
        Some(digits_val(ds) as u64)
    } else {
        None
    }
}

fn parse_digits(v: &Vec<char>, from: usize) -> (r: Option<u64>)
    requires
        from <= v@.len(),
    ensures
        ({
            let ds = v@.subrange(from as int, v@.len() as int);
            match r {
                Some(x) => all_digits(ds) && digits_val(ds) == x,
                None => !(all_digits(ds) && digits_val(ds) <= u64::MAX),
            }
        }),
{
    let n: usize = v.len();
    let ghost ds = v@.subrange(from as int, n as int);
    if from == n {
        return None;
    }
    let mut acc: u128 = 0;
    let mut i: usize = from;
    while i < n
        invariant
            from <= i <= n,
            n == v@.len(),
            ds == v@.subrange(from as int, n as int),
            forall|k: int| 0 <= k < i - from ==> is_digit(ds[k]),
            acc == digits_val(ds.subrange(0, i - from)),
            acc <= u64::MAX,
        decreases n - i,
    {
        let c = v[i];
        let cv: u32 = c as u32;
        if cv < 48 || cv > 57 {
            assert(!is_digit(ds[i - from]));
            return None;
        }
        let d: u128 = (cv - 48) as u128;
        let next: u128 = acc * 10 + d;
        proof {
            let t = ds.subrange(0, i - from + 1);
            assert(t.drop_last() =~= ds.subrange(0, i - from));
            assert(digits_val(t) == acc * 10 + d);
        }
        if next > u64::MAX as u128 {
            proof {
                if all_digits(ds) {
                    lemma_digits_val_prefix_le(ds, i - from + 1);
                }
            }
            return None;
        }
        acc = next;
        i = i + 1;
    }
    proof {
        assert(ds.subrange(0, n - from) =~= ds);
    }
    Some(acc as u64)
}

/// Parses an unsigned decimal string as `u64`.
pub fn parse_u64(s: &str) -> (r: Option<u64>)
    ensures
        r == parse_u64_spec(s@),
{
    let v = str_chars(s);
    let n: usize = v.len();
    let from: usize = if n > 0 && v[0] == '+' {
        1
    } else {
        0
    };
    let r = parse_digits(&v, from);
    proof {
        if from == 1 {
            assert(v@.subrange(1, n as int) =~= v@.drop_first());
        } else {
            assert(v@.subrange(0, n as int) =~= v@);
        }
    }
    r
}

/// The number parsed from a signed decimal string: an optional `+` or `-`,
/// then digits; values outside `i64` are rejected.
pub open spec fn parse_i64_spec(s: Seq<char>) -> Option<i64> {
    let neg = s.len() > 0 && s[0] == '-';
    let ds = if s.len() > 0 && (s[0] == '+' || s[0] == '-') {
        s.drop_first()
    } else {
        s
    };
    let v = if neg {
        -digits_val(ds)
    } else {
        digits_val(ds)
    };
    if all_digits(ds) && i64::MIN <= v <= i64::MAX {
        Some(v as i64)
    } else {
        None
    }
}

/// Parses a signed decimal string as `i64`.
pub fn parse_i64(s: &str) -> (r: Option<i64>)
    ensures
        r == parse_i64_spec(s@),
{
    let v = str_chars(s);
    let n: usize = v.len();
    let mut neg: bool = false;
    let mut from: usize = 0;
    if n > 0 && v[0] == '-' {
        neg = true;
        from = 1;
    } else if n > 0 && v[0] == '+' {
        from = 1;
    }
    let mag = parse_digits(&v, from);
    proof {
        if from == 1 {
            assert(v@.subrange(1, n as int) =~= v@.drop_first());
        } else {
            assert(v@.subrange(0, n as int) =~= v@);
        }
    }
    match mag {
        None => None,
        Some(m) => {
            if neg {
                if m > 9223372036854775808u64 {
                    None
                } else if m == 9223372036854775808u64 {
                    Some(i64::MIN)
                } else {
                    Some(-(m as i64))
                }
            } else {
                if m > i64::MAX as u64 {
                    None
                } else {
                    Some(m as i64)
                }
            }
        },
    }
}

} // verus!
