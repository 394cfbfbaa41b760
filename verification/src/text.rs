//! Character-level helpers shared by the parsing and rendering modules.

use vstd::prelude::*;
use vstd::string::StrSliceExecFns;
use vstd::string::StringExecFns;

verus! {

/// `p` is a prefix of `s`.
pub open spec fn starts_with(s: Seq<char>, p: Seq<char>) -> bool {
    p.len() <= s.len() && s.subrange(0, p.len() as int) == p
}

/// A prefix test over code points.
pub fn starts_with_str(s: &str, p: &str) -> (r: bool)
    ensures
        r == starts_with(s@, p@),
{
    let sl: usize = s.unicode_len();
    let pl: usize = p.unicode_len();
    if pl > sl {
        return false;
    }
    let mut i: usize = 0;
    while i < pl
        invariant
            i <= pl,
            pl <= sl,
            pl == p@.len(),
            sl == s@.len(),
            forall|k: int| 0 <= k < i ==> s@[k] == p@[k],
        decreases pl - i,
    {
        if s.get_char(i) != p.get_char(i) {
            proof {
                assert(s@.subrange(0, p@.len() as int)[i as int] == s@[i as int]);
            }
            return false;
        }
        i = i + 1;
    }
    proof {
        assert(s@.subrange(0, p@.len() as int) =~= p@);
    }
    true
}

/// Copies a string slice into an owned `String`.
pub fn copy_str(s: &str) -> (r: String)
    ensures
        r@ == s@,
{
    String::from_str(s)
}

/// The characters that count as whitespace: the Unicode `White_Space` set,
/// which is what both `char::is_whitespace` and the title-cleaning rules use.
pub open spec fn is_space(c: char) -> bool {
    ||| c == ' '
    ||| c == '\t'
    ||| c == '\n'
    ||| c == '\u{0B}'
    ||| c == '\u{0C}'
    ||| c == '\r'
    ||| c == '\u{85}'
    ||| c == '\u{A0}'
    ||| c == '\u{1680}'
    ||| ((0x2000 <= c as u32) && (c as u32 <= 0x200A))
    ||| c == '\u{2028}'
    ||| c == '\u{2029}'
    ||| c == '\u{202F}'
    ||| c == '\u{3000}'
    ||| c == '\u{205F}'
}

/// Executable whitespace test.
pub fn is_space_c(c: char) -> (r: bool)
    ensures
        r == is_space(c),
{
    c == ' ' || c == '\t' || c == '\n' || c == '\u{0B}' || c == '\u{0C}' || c == '\r'
        || c == '\u{85}' || c == '\u{A0}' || c == '\u{1680}'
        || ((0x2000 <= c as u32) && (c as u32 <= 0x200A)) || c == '\u{2028}' || c == '\u{2029}'
        || c == '\u{202F}' || c == '\u{3000}' || c == '\u{205F}'
}

/// The characters of a string slice, in order.
pub fn str_chars(s: &str) -> (r: Vec<char>)
    ensures
        r@ == s@,
{
    let n: usize = s.unicode_len();
    let mut v: Vec<char> = Vec::new();
    let mut i: usize = 0;
    while i < n
        invariant
            i <= n,
            n == s@.len(),
            v@ == s@.subrange(0, i as int),
        decreases n - i,
    {
        let c = s.get_char(i);
        v.push(c);
        proof {
            assert(v@ =~= s@.subrange(0, i as int + 1));
        }
        i = i + 1;
    }
    proof {
        assert(s@.subrange(0, n as int) =~= s@);
    }
    v
}

/// Relies on `String::push`: the character is appended at the end.
#[verifier::external_body]
fn push_char(s: &mut String, c: char)
    ensures
        final(s)@ == old(s)@.push(c),
{
    s.push(c)
}

/// Builds the string holding exactly the given characters, in order.
pub fn chars_to_string(v: &Vec<char>) -> (r: String)
    ensures
        r@ == v@,
{
    let n: usize = v.len();
    let mut s = String::new();
    let mut i: usize = 0;
    while i < n
        invariant
            i <= n,
            n == v@.len(),
            s@ == v@.subrange(0, i as int),
        decreases n - i,
    {
        push_char(&mut s, v[i]);
        proof {
            assert(v@.subrange(0, i as int).push(v@[i as int]) =~= v@.subrange(0, i as int + 1));
        }
        i = i + 1;
    }
    proof {
        assert(v@.subrange(0, n as int) =~= v@);
    }
    s
}

/// `s` with leading whitespace removed.
pub open spec fn trim_start_spec(s: Seq<char>) -> Seq<char>
    decreases s.len(),
{
    if s.len() > 0 && is_space(s[0]) {
        trim_start_spec(s.drop_first())
    } else {
        s
    }
}

/// `s` with trailing whitespace removed.
pub open spec fn trim_end_spec(s: Seq<char>) -> Seq<char>
    decreases s.len(),
{
    if s.len() > 0 && is_space(s.last()) {
        trim_end_spec(s.drop_last())
    } else {
        s
    }
}

/// `s` with whitespace removed from both ends.
pub open spec fn trim_spec(s: Seq<char>) -> Seq<char> {
    trim_end_spec(trim_start_spec(s))
}

proof fn lemma_trim_start_index(s: Seq<char>, a: int)
    requires
        0 <= a <= s.len(),
        forall|k: int| 0 <= k < a ==> is_space(s[k]),
        a < s.len() ==> !is_space(s[a]),
    ensures
        trim_start_spec(s) == s.subrange(a, s.len() as int),
    decreases a,
{
    if a == 0 {
        assert(s.subrange(0, s.len() as int) =~= s);
    } else {
        let t = s.drop_first();
        assert(forall|k: int| 0 <= k < a - 1 ==> s[k + 1] == #[trigger] t[k]);
        lemma_trim_start_index(t, a - 1);
        assert(t.subrange(a - 1, t.len() as int) =~= s.subrange(a, s.len() as int));
    }
}

proof fn lemma_trim_end_index(s: Seq<char>, b: int)
    requires
        0 <= b <= s.len(),
        forall|k: int| b <= k < s.len() ==> is_space(s[k]),
        b > 0 ==> !is_space(s[b - 1]),
    ensures
        trim_end_spec(s) == s.subrange(0, b),
    decreases s.len(),
{
    if b == s.len() {
        if s.len() > 0 {
            assert(!is_space(s.last()));
        }
        assert(s.subrange(0, s.len() as int) =~= s);
    } else {
        let t = s.drop_last();
        assert(is_space(s.last()));
        lemma_trim_end_index(t, b);
        assert(t.subrange(0, b) =~= s.subrange(0, b));
    }
}

/// A trimmed sequence never starts with whitespace.
pub proof fn lemma_trim_start_no_lead(s: Seq<char>)
    ensures
        trim_start_spec(s).len() > 0 ==> !is_space(trim_start_spec(s)[0]),
    decreases s.len(),
{
    if s.len() > 0 && is_space(s[0]) {
        lemma_trim_start_no_lead(s.drop_first());
    }
}

/// A trimmed sequence never ends with whitespace.
pub proof fn lemma_trim_end_no_trail(s: Seq<char>)
    ensures
        trim_end_spec(s).len() > 0 ==> !is_space(trim_end_spec(s).last()),
    decreases s.len(),
{
    if s.len() > 0 && is_space(s.last()) {
        lemma_trim_end_no_trail(s.drop_last());
    }
}

/// End-trimming keeps a prefix of the original characters.
pub proof fn lemma_trim_end_prefix(s: Seq<char>)
    ensures
        trim_end_spec(s).len() <= s.len(),
        forall|k: int| 0 <= k < trim_end_spec(s).len() ==> trim_end_spec(s)[k] == s[k],
    decreases s.len(),
{
    if s.len() > 0 && is_space(s.last()) {
        let d = s.drop_last();
        lemma_trim_end_prefix(d);
        assert(trim_end_spec(s) == trim_end_spec(d));
        assert forall|k: int| 0 <= k < trim_end_spec(s).len() implies trim_end_spec(s)[k]
            == s[k] by {
            assert(trim_end_spec(d)[k] == d[k]);
            assert(d[k] == s[k]);
        }
    }
}

/// Start-trimming keeps a suffix of the original characters.
pub proof fn lemma_trim_start_suffix(s: Seq<char>)
    ensures
        trim_start_spec(s).len() <= s.len(),
        forall|k: int|
            0 <= k < trim_start_spec(s).len() ==> trim_start_spec(s)[k] == s[s.len()
                - trim_start_spec(s).len() + k],
    decreases s.len(),
{
    if s.len() > 0 && is_space(s[0]) {
        let d = s.drop_first();
        lemma_trim_start_suffix(d);
        assert(forall|k: int| 0 <= k < d.len() ==> #[trigger] d[k] == s[k + 1]);
    }
}

/// A fully trimmed sequence has no whitespace at either end.
pub proof fn lemma_trim_ends(s: Seq<char>)
    ensures
        trim_spec(s).len() > 0 ==> !is_space(trim_spec(s)[0]) && !is_space(trim_spec(s).last()),
{
    let ts = trim_start_spec(s);
    lemma_trim_start_no_lead(s);
    lemma_trim_end_no_trail(ts);
    lemma_trim_end_prefix(ts);
}

/// Trimming leaves a sequence with clean ends unchanged.
pub proof fn lemma_trim_fix(s: Seq<char>)
    requires
        s.len() > 0 ==> !is_space(s[0]) && !is_space(s.last()),
    ensures
        trim_spec(s) == s,
{
}

/// `v` with whitespace removed from both ends.
pub fn trim_chars(v: &Vec<char>) -> (r: Vec<char>)
    ensures
        r@ == trim_spec(v@),
{
    let n: usize = v.len();
    let mut a: usize = 0;
    while a < n && is_space_c(v[a])
        invariant
            a <= n,
            n == v@.len(),
            forall|k: int| 0 <= k < a ==> is_space(v@[k]),
        decreases n - a,
    {
        a = a + 1;
    }
    proof {
        lemma_trim_start_index(v@, a as int);
    }
    let ghost t = v@.subrange(a as int, n as int);
    let mut b: usize = n;
    while b > a && is_space_c(v[b - 1])
        invariant
            a <= b <= n,
            n == v@.len(),
            forall|k: int| b <= k < n ==> is_space(v@[k]),
        decreases b,
    {
        b = b - 1;
    }
    proof {
        assert(forall|k: int| b - a <= k < t.len() ==> is_space(#[trigger] t[k]));
        lemma_trim_end_index(t, b - a);
    }
    let mut r: Vec<char> = Vec::new();
    let mut i: usize = a;
    while i < b
        invariant
            a <= i <= b <= n,
            n == v@.len(),
            r@ == v@.subrange(a as int, i as int),
        decreases b - i,
    {
        r.push(v[i]);
        proof {
            assert(v@.subrange(a as int, i as int).push(v@[i as int]) =~= v@.subrange(
                a as int,
                i as int + 1,
            ));
        }
        i = i + 1;
    }
    proof {
        assert(t.subrange(0, b - a) =~= v@.subrange(a as int, b as int));
    }
    r
}

/// Copies the characters of `v` between `a` and `b`.
pub fn sub_chars(v: &Vec<char>, a: usize, b: usize) -> (r: Vec<char>)
    requires
        a <= b <= v@.len(),
    ensures
        r@ == v@.subrange(a as int, b as int),
{
    let mut r: Vec<char> = Vec::new();
    let mut i: usize = a;
    while i < b
        invariant
            a <= i <= b <= v@.len(),
            r@ == v@.subrange(a as int, i as int),
        decreases b - i,
    {
        r.push(v[i]);
        proof {
            assert(v@.subrange(a as int, i as int).push(v@[i as int]) =~= v@.subrange(
                a as int,
                i as int + 1,
            ));
        }
        i = i + 1;
    }
    r
}

/// Whether the character `c` occurs in `v`.
pub fn contains_char(v: &Vec<char>, c: char) -> (r: bool)
    ensures
        r == v@.contains(c),
{
    let n: usize = v.len();
    let mut i: usize = 0;
    while i < n
        invariant
            i <= n,
            n == v@.len(),
            forall|k: int| 0 <= k < i ==> v@[k] != c,
        decreases n - i,
    {
        if v[i] == c {
            return true;
        }
        i = i + 1;
    }
    false
}

/// Character-wise string equality.
pub fn str_eq(s: &str, t: &str) -> (r: bool)
    ensures
        r == (s@ == t@),
{
    let n: usize = s.unicode_len();
    let m: usize = t.unicode_len();
    if n != m {
        return false;
    }
    let mut i: usize = 0;
    while i < n
        invariant
            i <= n,
            n == s@.len(),
            n == t@.len(),
            forall|k: int| 0 <= k < i ==> s@[k] == t@[k],
        decreases n - i,
    {
        if s.get_char(i) != t.get_char(i) {
            return false;
        }
        i = i + 1;
    }
    proof {
        assert(s@ =~= t@);
    }
    true
}

/// `sub` occurs in `s` at position `i`.
pub open spec fn occurs_at(s: Seq<char>, sub: Seq<char>, i: int) -> bool {
    0 <= i && i + sub.len() <= s.len() && s.subrange(i, i + sub.len() as int) == sub
}

/// `sub` occurs somewhere in `s`.
pub open spec fn contains_sub(s: Seq<char>, sub: Seq<char>) -> bool {
    exists|i: int| occurs_at(s, sub, i)
}

/// The position of the first occurrence of `sub` in `s`, if any.
pub open spec fn find_sub_spec(s: Seq<char>, sub: Seq<char>) -> Option<int>
    decreases s.len(),
{
    if occurs_at(s, sub, 0) {
        Some(0)
    } else if s.len() == 0 {
        None
    } else {
        match find_sub_spec(s.drop_first(), sub) {
            Some(i) => Some(i + 1),
            None => None,
        }
    }
}

proof fn lemma_occurs_shift(s: Seq<char>, sub: Seq<char>, j: int)
    requires
        s.len() > 0,
        j >= 0,
    ensures
        occurs_at(s.drop_first(), sub, j) <==> occurs_at(s, sub, j + 1),
{
    let t = s.drop_first();
    if j + sub.len() <= t.len() {
        assert(t.subrange(j, j + sub.len() as int) =~= s.subrange(j + 1, j + 1 + sub.len() as int));
    }
}

/// The first occurrence is the least witness of `occurs_at`.
pub proof fn lemma_find_sub_at(s: Seq<char>, sub: Seq<char>, i: int)
    requires
        occurs_at(s, sub, i),
        forall|j: int| 0 <= j < i ==> !occurs_at(s, sub, j),
    ensures
        find_sub_spec(s, sub) == Some(i),
    decreases i,
{
    if i == 0 {
    } else {
        assert(!occurs_at(s, sub, 0));
        assert(s.len() > 0);
        lemma_occurs_shift(s, sub, i - 1);
        assert forall|j: int| 0 <= j < i - 1 implies !occurs_at(s.drop_first(), sub, j) by {
            lemma_occurs_shift(s, sub, j);
            assert(!occurs_at(s, sub, j + 1));
        }
        lemma_find_sub_at(s.drop_first(), sub, i - 1);
    }
}

/// If `sub` occurs nowhere, the search finds nothing.
pub proof fn lemma_find_sub_none(s: Seq<char>, sub: Seq<char>)
    requires
        forall|j: int| !occurs_at(s, sub, j),
    ensures
        find_sub_spec(s, sub) == None::<int>,
    decreases s.len(),
{
    assert(!occurs_at(s, sub, 0));
    if s.len() > 0 {
        assert forall|j: int| !occurs_at(s.drop_first(), sub, j) by {
            if j >= 0 {
                lemma_occurs_shift(s, sub, j);
            }
        }
        lemma_find_sub_none(s.drop_first(), sub);
    }
}

/// Tests whether `sub` occurs in `v` at position `i`.
pub fn occurs_check(v: &Vec<char>, sub: &Vec<char>, i: usize) -> (r: bool)
    requires
        i + sub@.len() <= v@.len(),
    ensures
        r == occurs_at(v@, sub@, i as int),
{
    let n: usize = v.len();
    let m: usize = sub.len();
    let mut k: usize = 0;
    while k < m
        invariant
            k <= m,
            n == v@.len(),
            m == sub@.len(),
            i + m <= n,
            forall|j: int| 0 <= j < k ==> v@[i + j] == sub@[j],
        decreases m - k,
    {
        if v[i + k] != sub[k] {
            proof {
                assert(v@.subrange(i as int, i + m as int)[k as int] == v@[i + k]);
            }
            return false;
        }
        k = k + 1;
    }
    proof {
        assert(v@.subrange(i as int, i + m as int) =~= sub@);
    }
    true
}

/// The position of the first occurrence of `sub` in `v`, if any.
pub fn find_sub(v: &Vec<char>, sub: &Vec<char>) -> (r: Option<usize>)
    ensures
        match r {
            Some(i) => find_sub_spec(v@, sub@) == Some(i as int),
            None => find_sub_spec(v@, sub@) == None::<int>,
        },
{
    let n: usize = v.len();
    let m: usize = sub.len();
    if m > n {
        proof {
            assert(forall|j: int| !occurs_at(v@, sub@, j));
            lemma_find_sub_none(v@, sub@);
        }
        return None;
    }
    if m == 0 {
        proof {
            assert(v@.subrange(0, 0) =~= sub@);
            assert(occurs_at(v@, sub@, 0));
            lemma_find_sub_at(v@, sub@, 0);
        }
        return Some(0);
    }
    let mut i: usize = 0;
    while i <= n - m
        invariant
            1 <= m <= n,
            i <= n - m + 1,
            n == v@.len(),
            m == sub@.len(),
            forall|j: int| 0 <= j < i ==> !occurs_at(v@, sub@, j),
        decreases n - i,
    {
        if occurs_check(v, sub, i) {
            proof {
                lemma_find_sub_at(v@, sub@, i as int);
            }
            return Some(i);
        }
        i = i + 1;
    }
    proof {
        assert(forall|j: int| i <= j ==> !occurs_at(v@, sub@, j));
        lemma_find_sub_none(v@, sub@);
    }
    None
}

/// Whether `sub` occurs anywhere in `v`.
pub fn contains_chars(v: &Vec<char>, sub: &Vec<char>) -> (r: bool)
    ensures
        r == contains_sub(v@, sub@),
{
    let f = find_sub(v, sub);
    proof {
        lemma_find_sub_contains(v@, sub@);
    }
    f.is_some()
}

/// Relates the first-occurrence search to the existence of any occurrence.
pub proof fn lemma_find_sub_contains(s: Seq<char>, sub: Seq<char>)
    ensures
        contains_sub(s, sub) <==> find_sub_spec(s, sub) is Some,
        match find_sub_spec(s, sub) {
            Some(i) => occurs_at(s, sub, i) && forall|j: int| 0 <= j < i ==> !occurs_at(s, sub, j),
            None => !contains_sub(s, sub),
        },
    decreases s.len(),
{
    if occurs_at(s, sub, 0) {
    } else if s.len() == 0 {
        assert forall|j: int| !occurs_at(s, sub, j) by {}
    } else {
        lemma_find_sub_contains(s.drop_first(), sub);
        assert forall|j: int| j >= 0 implies (occurs_at(s.drop_first(), sub, j) <==> occurs_at(
            s,
            sub,
            j + 1,
        )) by {
            lemma_occurs_shift(s, sub, j);
        }
        match find_sub_spec(s.drop_first(), sub) {
            Some(i) => {
                assert(occurs_at(s, sub, i + 1));
                assert forall|j: int| 0 <= j < i + 1 implies !occurs_at(s, sub, j) by {
                    if j > 0 {
                        lemma_occurs_shift(s, sub, j - 1);
                    }
                }
            },
            None => {
                if contains_sub(s, sub) {
                    let j = choose|j: int| occurs_at(s, sub, j);
                    assert(j != 0);
                    lemma_occurs_shift(s, sub, j - 1);
                }
            },
        }
    }
}

} // verus!
