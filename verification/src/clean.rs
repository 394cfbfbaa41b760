//! Title cleaning: bracketed annotations are removed, whitespace runs are
//! collapsed to single spaces, and the ends are trimmed.

use vstd::prelude::*;

use crate::text::is_space;
use crate::text::is_space_c;
use crate::text::trim_spec;
use crate::text::trim_chars;

verus! {

/// Opening bracket of an annotation such as "(Official Video)" or "[Lyrics]".
pub open spec fn is_open_bracket(c: char) -> bool {
    c == '(' || c == '[' || c == '{'
}

/// Closing bracket of an annotation.
pub open spec fn is_close_bracket(c: char) -> bool {
    c == ')' || c == ']' || c == '}'
}

/// Executable test for an opening bracket.
pub fn is_open_bracket_c(c: char) -> (r: bool)
    ensures
        r == is_open_bracket(c),
{
    c == '(' || c == '[' || c == '{'
}

/// Executable test for a closing bracket.
pub fn is_close_bracket_c(c: char) -> (r: bool)
    ensures
        r == is_close_bracket(c),
{
    c == ')' || c == ']' || c == '}'
}

/// The index of the first closing bracket in `s`, unless a line break comes
/// first: an annotation never crosses a line break.
pub open spec fn close_within(s: Seq<char>) -> Option<int>
    decreases s.len(),
{
    if s.len() == 0 {
        None
    } else if is_close_bracket(s[0]) {
        Some(0)
    } else if s[0] == '\n' {
        None
    } else {
        match close_within(s.drop_first()) {
            Some(j) => Some(j + 1),
            None => None,
        }
    }
}

/// `s` with every bracketed annotation removed: at each position, an opening
/// bracket that is followed by a closing bracket on the same line opens a
/// removed span that ends at the nearest such closing bracket.
pub open spec fn strip_brackets(s: Seq<char>) -> Seq<char>
    decreases s.len(),
{
    if s.len() == 0 {
        s
    } else if is_open_bracket(s[0]) {
        match close_within(s.drop_first()) {
            Some(j) => {
                if 0 <= j && j + 2 <= s.len() {
                    strip_brackets(s.subrange(j + 2, s.len() as int))
                } else {
                    seq![s[0]] + strip_brackets(s.drop_first())
                }
            },
            None => seq![s[0]] + strip_brackets(s.drop_first()),
        }
    } else {
        seq![s[0]] + strip_brackets(s.drop_first())
    }
}

proof fn lemma_close_within_at(s: Seq<char>, j: int)
    requires
        0 <= j < s.len(),
        is_close_bracket(s[j]),
        forall|k: int| 0 <= k < j ==> !is_close_bracket(s[k]) && s[k] != '\n',
    ensures
        close_within(s) == Some(j),
    decreases j,
{
    if j > 0 {
        let t = s.drop_first();
        assert(forall|k: int| 0 <= k < j - 1 ==> s[k + 1] == #[trigger] t[k]);
        lemma_close_within_at(t, j - 1);
    }
}

proof fn lemma_close_within_stop(s: Seq<char>, m: int)
    requires
        0 <= m <= s.len(),
        forall|k: int| 0 <= k < m ==> !is_close_bracket(s[k]) && s[k] != '\n',
        m < s.len() ==> s[m] == '\n',
    ensures
        close_within(s) == None::<int>,
    decreases m,
{
    if s.len() == 0 {
    } else if m == 0 {
        assert(s[0] == '\n');
    } else {
        let t = s.drop_first();
        assert(forall|k: int| 0 <= k < m - 1 ==> s[k + 1] == #[trigger] t[k]);
        lemma_close_within_stop(t, m - 1);
    }
}

/// Finds the first closing bracket at or after `from`, stopping at a line
/// break.
fn find_close(v: &Vec<char>, from: usize) -> (r: Option<usize>)
    requires
        from <= v@.len(),
    ensures
        match r {
            Some(j) => from <= j < v@.len() && close_within(
                v@.subrange(from as int, v@.len() as int),
            ) == Some(j - from),
            None => close_within(v@.subrange(from as int, v@.len() as int)) == None::<int>,
        },
{
    let n: usize = v.len();
    let ghost sub = v@.subrange(from as int, n as int);
    let mut j: usize = from;
    while j < n
        invariant
            from <= j <= n,
            n == v@.len(),
            sub == v@.subrange(from as int, n as int),
            forall|k: int| from <= k < j ==> !is_close_bracket(v@[k]) && v@[k] != '\n',
        decreases n - j,
    {
        let c = v[j];
        if is_close_bracket_c(c) {
            proof {
                assert(forall|k: int| 0 <= k < j - from ==> sub[k] == v@[k + from]);
                assert(sub[j - from] == v@[j as int]);
                lemma_close_within_at(sub, j - from);
            }
            return Some(j);
        }
        if c == '\n' {
            proof {
                assert(forall|k: int| 0 <= k < j - from ==> sub[k] == v@[k + from]);
                assert(sub[j - from] == v@[j as int]);
                lemma_close_within_stop(sub, j - from);
            }
            return None;
        }
        j = j + 1;
    }
    proof {
        assert(forall|k: int| 0 <= k < n - from ==> sub[k] == v@[k + from]);
        lemma_close_within_stop(sub, n - from);
    }
    None
}

/// `v` with every bracketed annotation removed.
pub fn strip_brackets_chars(v: &Vec<char>) -> (r: Vec<char>)
    ensures
        r@ == strip_brackets(v@),
{
    let n: usize = v.len();
    let mut out: Vec<char> = Vec::new();
    let mut i: usize = 0;
    proof {
        assert(v@.subrange(0, n as int) =~= v@);
    }
    while i < n
        invariant
            i <= n,
            n == v@.len(),
            strip_brackets(v@) == out@ + strip_brackets(v@.subrange(i as int, n as int)),
        decreases n - i,
    {
        let ghost rest = v@.subrange(i as int, n as int);
        proof {
            assert(rest.drop_first() =~= v@.subrange(i as int + 1, n as int));
        }
        let c = v[i];
        if is_open_bracket_c(c) {
            match find_close(v, i + 1) {
                Some(j) => {
                    proof {
                        assert(close_within(rest.drop_first()) == Some(j - i - 1));
                        assert(rest.subrange(j - i + 1, rest.len() as int) =~= v@.subrange(
                            j + 1,
                            n as int,
                        ));
                        assert(strip_brackets(rest) == strip_brackets(
                            v@.subrange(j + 1, n as int),
                        ));
                    }
                    i = j + 1;
                },
                None => {
                    out.push(c);
                    proof {
                        assert(strip_brackets(rest) == seq![rest[0]] + strip_brackets(
                            rest.drop_first(),
                        ));
                        assert(out@ + strip_brackets(v@.subrange(i as int + 1, n as int))
                            =~= strip_brackets(v@));
                    }
                    i = i + 1;
                },
            }
        } else {
            out.push(c);
            proof {
                assert(strip_brackets(rest) == seq![rest[0]] + strip_brackets(rest.drop_first()));
                assert(out@ + strip_brackets(v@.subrange(i as int + 1, n as int)) =~= strip_brackets(
                    v@,
                ));
            }
            i = i + 1;
        }
    }
    proof {
        assert(v@.subrange(n as int, n as int) =~= Seq::<char>::empty());
        assert(out@ =~= strip_brackets(v@));
    }
    out
}

/// One pass over `s` that rewrites every maximal whitespace run to a single
/// space; `prev_space` records whether the previous character was whitespace.
pub open spec fn collapse_go(s: Seq<char>, prev_space: bool) -> Seq<char>
    decreases s.len(),
{
    if s.len() == 0 {
        Seq::<char>::empty()
    } else if is_space(s[0]) {
        if prev_space {
            collapse_go(s.drop_first(), true)
        } else {
            seq![' '] + collapse_go(s.drop_first(), true)
        }
    } else {
        seq![s[0]] + collapse_go(s.drop_first(), false)
    }
}

/// Every whitespace run in `s` replaced by a single space.
pub open spec fn collapse_ws(s: Seq<char>) -> Seq<char> {
    collapse_go(s, false)
}

/// `v` with every whitespace run replaced by a single space.
pub fn collapse_chars(v: &Vec<char>) -> (r: Vec<char>)
    ensures
        r@ == collapse_ws(v@),
{
    let n: usize = v.len();
    let mut out: Vec<char> = Vec::new();
    let mut prev: bool = false;
    let mut i: usize = 0;
    proof {
        assert(v@.subrange(0, n as int) =~= v@);
    }
    while i < n
        invariant
            i <= n,
            n == v@.len(),
            collapse_ws(v@) == out@ + collapse_go(v@.subrange(i as int, n as int), prev),
        decreases n - i,
    {
        let ghost rest = v@.subrange(i as int, n as int);
        proof {
            assert(rest.drop_first() =~= v@.subrange(i as int + 1, n as int));
        }
        let c = v[i];
        if is_space_c(c) {
            if !prev {
                out.push(' ');
            }
            prev = true;
        } else {
            out.push(c);
            prev = false;
        }
        proof {
            assert(collapse_ws(v@) =~= out@ + collapse_go(
                v@.subrange(i as int + 1, n as int),
                prev,
            ));
        }
        i = i + 1;
    }
    proof {
        assert(v@.subrange(n as int, n as int) =~= Seq::<char>::empty());
        assert(out@ =~= collapse_ws(v@));
    }
    out
}

/// The fully cleaned form of a raw title.
pub open spec fn clean_title_spec(s: Seq<char>) -> Seq<char> {
    trim_spec(collapse_ws(strip_brackets(s)))
}

/// A sequence in collapsed form: every whitespace character is a plain
/// space and no two spaces are adjacent.
pub open spec fn collapsed(s: Seq<char>) -> bool {
    &&& forall|k: int| 0 <= k < s.len() && is_space(#[trigger] s[k]) ==> s[k] == ' '
    &&& forall|k: int| 0 <= k < s.len() - 1 ==> !(#[trigger] s[k] == ' ' && s[k + 1] == ' ')
}

/// Collapsed form with no whitespace at either end.
pub open spec fn tidy(s: Seq<char>) -> bool {
    collapsed(s) && (s.len() > 0 ==> !is_space(s[0]) && !is_space(s.last()))
}

proof fn lemma_collapse_go_collapsed(s: Seq<char>, prev: bool)
    ensures
        collapsed(collapse_go(s, prev)),
        prev ==> (collapse_go(s, prev).len() > 0 ==> collapse_go(s, prev)[0] != ' '),
        !prev && s.len() > 0 && !is_space(s[0]) ==> (collapse_go(s, prev).len() > 0 && collapse_go(
            s,
            prev,
        )[0] == s[0]),
    decreases s.len(),
{
    if s.len() == 0 {
    } else if is_space(s[0]) {
        lemma_collapse_go_collapsed(s.drop_first(), true);
        if !prev {
            let rest = collapse_go(s.drop_first(), true);
            let r = seq![' '] + rest;
            assert(forall|k: int| 0 <= k < rest.len() ==> r[k + 1] == #[trigger] rest[k]);
            assert(collapsed(r));
        }
    } else {
        lemma_collapse_go_collapsed(s.drop_first(), false);
        let rest = collapse_go(s.drop_first(), false);
        let r = seq![s[0]] + rest;
        assert(forall|k: int| 0 <= k < rest.len() ==> r[k + 1] == #[trigger] rest[k]);
        if rest.len() > 0 && r[0] == ' ' {
            assert(is_space(s[0]));
        }
        assert(collapsed(r));
    }
}

/// The collapsing pass always yields collapsed form.
pub proof fn lemma_collapse_collapsed(s: Seq<char>)
    ensures
        collapsed(collapse_ws(s)),
{
    lemma_collapse_go_collapsed(s, false);
}

proof fn lemma_collapse_go_fix(s: Seq<char>, prev: bool)
    requires
        collapsed(s),
        prev ==> (s.len() > 0 ==> !is_space(s[0])),
    ensures
        collapse_go(s, prev) == s,
    decreases s.len(),
{
    if s.len() == 0 {
        assert(collapse_go(s, prev) =~= s);
    } else {
        let d = s.drop_first();
        assert(forall|k: int| 0 <= k < d.len() ==> #[trigger] d[k] == s[k + 1]);
        assert(collapsed(d));
        if is_space(s[0]) {
            assert(s[0] == ' ');
            if d.len() > 0 {
                assert(!(s[0] == ' ' && s[1] == ' '));
                assert(!is_space(d[0]));
            }
            lemma_collapse_go_fix(d, true);
            assert(seq![' '] + d =~= s);
        } else {
            lemma_collapse_go_fix(d, false);
            assert(seq![s[0]] + d =~= s);
        }
    }
}

/// Collapsing leaves a collapsed sequence unchanged.
pub proof fn lemma_collapse_fix(s: Seq<char>)
    requires
        collapsed(s),
    ensures
        collapse_ws(s) == s,
{
    lemma_collapse_go_fix(s, false);
}

/// Collapsed form is inherited by any contiguous part.
pub proof fn lemma_collapsed_subrange(s: Seq<char>, a: int, b: int)
    requires
        collapsed(s),
        0 <= a <= b <= s.len(),
    ensures
        collapsed(s.subrange(a, b)),
{
    let t = s.subrange(a, b);
    assert(forall|k: int| 0 <= k < t.len() ==> #[trigger] t[k] == s[a + k]);
}

/// Collapsed form survives trimming.
pub proof fn lemma_collapsed_trim(s: Seq<char>)
    requires
        collapsed(s),
    ensures
        collapsed(trim_spec(s)),
{
    let ts = crate::text::trim_start_spec(s);
    crate::text::lemma_trim_start_suffix(s);
    assert(collapsed(ts)) by {
        assert(forall|k: int| 0 <= k < ts.len() ==> #[trigger] ts[k] == s[s.len() - ts.len() + k]);
    }
    let te = crate::text::trim_end_spec(ts);
    crate::text::lemma_trim_end_prefix(ts);
    assert(collapsed(te)) by {
        assert(forall|k: int| 0 <= k < te.len() ==> #[trigger] te[k] == ts[k]);
    }
}

/// Trimming a collapsed sequence yields tidy form.
pub proof fn lemma_trim_collapsed_tidy(s: Seq<char>)
    requires
        collapsed(s),
    ensures
        tidy(trim_spec(s)),
{
    lemma_collapsed_trim(s);
    crate::text::lemma_trim_ends(s);
}

/// Cleaning a title always yields tidy form.
pub proof fn lemma_clean_tidy(s: Seq<char>)
    ensures
        tidy(clean_title_spec(s)),
{
    lemma_collapse_collapsed(strip_brackets(s));
    lemma_trim_collapsed_tidy(collapse_ws(strip_brackets(s)));
}

/// Cleans a raw title: annotations out, whitespace collapsed, ends trimmed.
pub fn clean_title_chars(v: &Vec<char>) -> (r: Vec<char>)
    ensures
        r@ == clean_title_spec(v@),
{
    let stripped = strip_brackets_chars(v);
    let collapsed = collapse_chars(&stripped);
    trim_chars(&collapsed)
}

} // verus!
