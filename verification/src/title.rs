//! Heuristic recovery of an (artist, title) pair from a free-form track
//! title, and its application to track metadata.

use vstd::prelude::*;

use crate::clean::clean_title_spec;
use crate::clean::clean_title_chars;
use crate::text::contains_sub;
use crate::text::occurs_at;
use crate::text::find_sub_spec;
use crate::text::find_sub;
use crate::text::lemma_find_sub_at;
use crate::text::lemma_find_sub_contains;
use crate::text::trim_spec;
use crate::text::trim_chars;
use crate::text::sub_chars;
use crate::text::contains_char;
use crate::text::str_chars;
use crate::text::chars_to_string;
use crate::text::str_eq;
use crate::text::copy_str;

verus! {

/// The artist reported when nothing better is known.
pub open spec fn unknown_artist() -> Seq<char> {
    "Unknown Artist"@
}

/// The title reported when nothing better is known.
pub open spec fn unknown_title() -> Seq<char> {
    "Unknown Title"@
}

/// The separators that may divide artist from title, in priority order.
pub open spec fn sep_hyphen() -> Seq<char> {
    " - "@
}

pub open spec fn sep_en_dash() -> Seq<char> {
    " \u{2013} "@
}

pub open spec fn sep_em_dash() -> Seq<char> {
    " \u{2014} "@
}

pub open spec fn sep_pipe() -> Seq<char> {
    " | "@
}

pub open spec fn sep_colon() -> Seq<char> {
    " : "@
}

/// A split is plausible as "Artist - Title" when both sides are non-empty,
/// the left side is short and comma-free, and the right side is not
/// absurdly long.
pub open spec fn plausible_split(l: Seq<char>, r: Seq<char>) -> bool {
    l.len() > 0 && r.len() > 0 && l.len() < 40 && r.len() < 100 && !l.contains(',')
}

/// The (artist, title) pair read off a cleaned title split at position `i`
/// of separator `sep`: a plausible split is taken as "Artist - Title";
/// an implausible one swaps the roles.
pub open spec fn parse_split(c: Seq<char>, sep: Seq<char>, i: int) -> (Seq<char>, Seq<char>) {
    let l = trim_spec(c.subrange(0, i));
    let r = trim_spec(c.subrange(i + sep.len() as int, c.len() as int));
    if plausible_split(l, r) {
        (l, r)
    } else {
        (r, l)
    }
}

/// The (artist, title) pair recovered from an already-cleaned title: the
/// first occurrence of the highest-priority separator present decides the
/// split; with no separator the artist is unknown.
pub open spec fn parse_cleaned(c: Seq<char>) -> (Seq<char>, Seq<char>) {
    if find_sub_spec(c, sep_hyphen()) is Some {
        parse_split(c, sep_hyphen(), find_sub_spec(c, sep_hyphen())->Some_0)
    } else if find_sub_spec(c, sep_en_dash()) is Some {
        parse_split(c, sep_en_dash(), find_sub_spec(c, sep_en_dash())->Some_0)
    } else if find_sub_spec(c, sep_em_dash()) is Some {
        parse_split(c, sep_em_dash(), find_sub_spec(c, sep_em_dash())->Some_0)
    } else if find_sub_spec(c, sep_pipe()) is Some {
        parse_split(c, sep_pipe(), find_sub_spec(c, sep_pipe())->Some_0)
    } else if find_sub_spec(c, sep_colon()) is Some {
        parse_split(c, sep_colon(), find_sub_spec(c, sep_colon())->Some_0)
    } else {
        (unknown_artist(), c)
    }
}

/// The (artist, title) pair recovered from a raw title.
pub open spec fn parse_title_spec(t: Seq<char>) -> (Seq<char>, Seq<char>) {
    parse_cleaned(clean_title_spec(t))
}

/// Splits a cleaned title at the first occurrence of `sep` and assigns the
/// artist and title roles.
fn split_result(c: &Vec<char>, sep: &Vec<char>, i: usize) -> (r: (String, String))
    requires
        i + sep@.len() <= c@.len(),
    ensures
        (r.0@, r.1@) == parse_split(c@, sep@, i as int),
{
    let n: usize = c.len();
    let m: usize = sep.len();
    let left = trim_chars(&sub_chars(c, 0, i));
    let right = trim_chars(&sub_chars(c, i + m, n));
    let ok = left.len() > 0 && right.len() > 0 && left.len() < 40 && right.len() < 100
        && !contains_char(&left, ',');
    if ok {
        (chars_to_string(&left), chars_to_string(&right))
    } else {
        (chars_to_string(&right), chars_to_string(&left))
    }
}

/// Recovers a best-effort (artist, title) pair from a raw track title.
pub fn parse_artist_title(title: &str) -> (r: (String, String))
    ensures
        (r.0@, r.1@) == parse_title_spec(title@),
{
    let tv = str_chars(title);
    let cleaned = clean_title_chars(&tv);
    let s1 = str_chars(" - ");
    if let Some(i) = find_sub(&cleaned, &s1) {
        proof {
            lemma_find_sub_contains(cleaned@, s1@);
        }
        return split_result(&cleaned, &s1, i);
    }
    let s2 = str_chars(" \u{2013} ");
    if let Some(i) = find_sub(&cleaned, &s2) {
        proof {
            lemma_find_sub_contains(cleaned@, s2@);
        }
        return split_result(&cleaned, &s2, i);
    }
    let s3 = str_chars(" \u{2014} ");
    if let Some(i) = find_sub(&cleaned, &s3) {
        proof {
            lemma_find_sub_contains(cleaned@, s3@);
        }
        return split_result(&cleaned, &s3, i);
    }
    let s4 = str_chars(" | ");
    if let Some(i) = find_sub(&cleaned, &s4) {
        proof {
            lemma_find_sub_contains(cleaned@, s4@);
        }
        return split_result(&cleaned, &s4, i);
    }
    let s5 = str_chars(" : ");
    if let Some(i) = find_sub(&cleaned, &s5) {
        proof {
            lemma_find_sub_contains(cleaned@, s5@);
        }
        return split_result(&cleaned, &s5, i);
    }
    (copy_str("Unknown Artist"), chars_to_string(&cleaned))
}

/// The displayed (artist, title) pair for track metadata: a known artist is
/// kept as is; an absent, empty or unknown artist sends the title through
/// the parser.
pub open spec fn display_pair_spec(artist: Option<Seq<char>>, title: Option<Seq<char>>) -> (
    Seq<char>,
    Seq<char>,
) {
    let a = match artist {
        Some(s) => s,
        None => unknown_artist(),
    };
    let t = match title {
        Some(s) => s,
        None => unknown_title(),
    };
    if a == unknown_artist() || a.len() == 0 {
        parse_title_spec(t)
    } else {
        (a, t)
    }
}

/// Resolves the displayed (artist, title) pair from optional metadata
/// fields.
pub fn resolve_display(artist: &Option<String>, title: &Option<String>) -> (r: (String, String))
    ensures
        (r.0@, r.1@) == display_pair_spec(artist.deep_view(), title.deep_view()),
{
    let a: &str = match artist {
        Some(s) => s.as_str(),
        None => "Unknown Artist",
    };
    let t: &str = match title {
        Some(s) => s.as_str(),
        None => "Unknown Title",
    };
    if str_eq(a, "Unknown Artist") || a.unicode_len() == 0 {
        parse_artist_title(t)
    } else {
        (copy_str(a), copy_str(t))
    }
}

/// With no separator anywhere in the cleaned title, parsing reports an
/// unknown artist and the cleaned title itself.
pub proof fn lemma_parse_no_separator(t: Seq<char>)
    requires
        !contains_sub(clean_title_spec(t), sep_hyphen()),
        !contains_sub(clean_title_spec(t), sep_en_dash()),
        !contains_sub(clean_title_spec(t), sep_em_dash()),
        !contains_sub(clean_title_spec(t), sep_pipe()),
        !contains_sub(clean_title_spec(t), sep_colon()),
    ensures
        parse_title_spec(t) == (unknown_artist(), clean_title_spec(t)),
{
    let c = clean_title_spec(t);
    lemma_find_sub_contains(c, sep_hyphen());
    lemma_find_sub_contains(c, sep_en_dash());
    lemma_find_sub_contains(c, sep_em_dash());
    lemma_find_sub_contains(c, sep_pipe());
    lemma_find_sub_contains(c, sep_colon());
}

proof fn lemma_first_hyphen_split(c: Seq<char>, a: Seq<char>, b: Seq<char>)
    requires
        c == a + sep_hyphen() + b,
        !contains_sub(a, sep_hyphen()),
        !(a.len() >= 2 && a[a.len() - 2] == ' ' && a[a.len() - 1] == '-'),
    ensures
        find_sub_spec(c, sep_hyphen()) == Some(a.len() as int),
        c.subrange(0, a.len() as int) == a,
        c.subrange(a.len() + sep_hyphen().len() as int, c.len() as int) == b,
{
    let sep = sep_hyphen();
    reveal_strlit(" - ");
    assert(sep.len() == 3);
    assert(forall|k: int| 0 <= k < a.len() ==> #[trigger] c[k] == a[k]);
    assert(forall|k: int| 0 <= k < 3 ==> #[trigger] c[a.len() + k] == sep[k]);
    assert(forall|k: int| 0 <= k < b.len() ==> #[trigger] c[a.len() + 3 + k] == b[k]);
    assert(c.subrange(a.len() as int, a.len() as int + 3) =~= sep);
    assert(occurs_at(c, sep, a.len() as int));
    assert forall|p: int| 0 <= p < a.len() implies !occurs_at(c, sep, p) by {
        if occurs_at(c, sep, p) {
            if p + 3 <= a.len() {
                assert(a.subrange(p, p + 3) =~= c.subrange(p, p + 3));
                assert(occurs_at(a, sep, p));
            } else if p == a.len() - 2 {
                assert(c.subrange(p, p + 3)[0] == c[p]);
                assert(c.subrange(p, p + 3)[1] == c[p + 1]);
                assert(a[a.len() - 2] == ' ' && a[a.len() - 1] == '-');
            } else {
                assert(p == a.len() - 1);
                assert(c.subrange(p, p + 3)[1] == c[p + 1]);
                assert(c[a.len() as int] == ' ');
                assert(c[p + 1] == '-');
            }
        }
    }
    lemma_find_sub_at(c, sep, a.len() as int);
    assert(c.subrange(0, a.len() as int) =~= a);
    assert(c.subrange(a.len() as int + 3, c.len() as int) =~= b);
}

/// A title whose cleaned form reads "A - B" with a short, comma-free,
/// trimmed A and a trimmed B of moderate length parses as artist A and
/// title B.
pub proof fn lemma_parse_artist_title_order(t: Seq<char>, a: Seq<char>, b: Seq<char>)
    requires
        clean_title_spec(t) == a + sep_hyphen() + b,
        !contains_sub(a, sep_hyphen()),
        !(a.len() >= 2 && a[a.len() - 2] == ' ' && a[a.len() - 1] == '-'),
        a == trim_spec(a),
        b == trim_spec(b),
        0 < a.len() < 40,
        0 < b.len() < 100,
        !a.contains(','),
    ensures
        parse_title_spec(t) == (a, b),
{
    let c = clean_title_spec(t);
    lemma_first_hyphen_split(c, a, b);
}

proof fn lemma_split_tidy(c: Seq<char>, sep: Seq<char>, i: int)
    requires
        crate::clean::collapsed(c),
        occurs_at(c, sep, i),
    ensures
        crate::clean::tidy(parse_split(c, sep, i).0),
        crate::clean::tidy(parse_split(c, sep, i).1),
{
    crate::clean::lemma_collapsed_subrange(c, 0, i);
    crate::clean::lemma_trim_collapsed_tidy(c.subrange(0, i));
    crate::clean::lemma_collapsed_subrange(c, i + sep.len() as int, c.len() as int);
    crate::clean::lemma_trim_collapsed_tidy(c.subrange(i + sep.len() as int, c.len() as int));
}

/// Whatever the parser returns as the title is in tidy form: collapsed
/// whitespace and clean ends.
pub proof fn lemma_parse_title_tidy(t: Seq<char>)
    ensures
        crate::clean::tidy(parse_title_spec(t).1),
{
    let c = clean_title_spec(t);
    crate::clean::lemma_clean_tidy(t);
    if find_sub_spec(c, sep_hyphen()) is Some {
        lemma_find_sub_contains(c, sep_hyphen());
        lemma_split_tidy(c, sep_hyphen(), find_sub_spec(c, sep_hyphen())->Some_0);
    } else if find_sub_spec(c, sep_en_dash()) is Some {
        lemma_find_sub_contains(c, sep_en_dash());
        lemma_split_tidy(c, sep_en_dash(), find_sub_spec(c, sep_en_dash())->Some_0);
    } else if find_sub_spec(c, sep_em_dash()) is Some {
        lemma_find_sub_contains(c, sep_em_dash());
        lemma_split_tidy(c, sep_em_dash(), find_sub_spec(c, sep_em_dash())->Some_0);
    } else if find_sub_spec(c, sep_pipe()) is Some {
        lemma_find_sub_contains(c, sep_pipe());
        lemma_split_tidy(c, sep_pipe(), find_sub_spec(c, sep_pipe())->Some_0);
    } else if find_sub_spec(c, sep_colon()) is Some {
        lemma_find_sub_contains(c, sep_colon());
        lemma_split_tidy(c, sep_colon(), find_sub_spec(c, sep_colon())->Some_0);
    }
}

/// The parser is idempotent on its own title output as long as that
/// output offers it nothing further to do: no separator and no bracketed
/// annotation left. Parsing such an output reports an unknown artist and
/// hands the title back unchanged.
pub proof fn lemma_parse_idempotent(t: Seq<char>)
    requires
        crate::clean::strip_brackets(parse_title_spec(t).1) == parse_title_spec(t).1,
        !contains_sub(parse_title_spec(t).1, sep_hyphen()),
        !contains_sub(parse_title_spec(t).1, sep_en_dash()),
        !contains_sub(parse_title_spec(t).1, sep_em_dash()),
        !contains_sub(parse_title_spec(t).1, sep_pipe()),
        !contains_sub(parse_title_spec(t).1, sep_colon()),
    ensures
        parse_title_spec(parse_title_spec(t).1) == (unknown_artist(), parse_title_spec(t).1),
{
    let out = parse_title_spec(t).1;
    lemma_parse_title_tidy(t);
    crate::clean::lemma_collapse_fix(out);
    crate::text::lemma_trim_fix(out);
    assert(clean_title_spec(out) == out);
    lemma_find_sub_contains(out, sep_hyphen());
    lemma_find_sub_contains(out, sep_en_dash());
    lemma_find_sub_contains(out, sep_em_dash());
    lemma_find_sub_contains(out, sep_pipe());
    lemma_find_sub_contains(out, sep_colon());
}

/// A comma in the left segment of "L - B" makes the split implausible, so
/// the roles swap: B is reported as the artist and L as the title.
pub proof fn lemma_parse_comma_swaps(t: Seq<char>, a: Seq<char>, b: Seq<char>)
    requires
        clean_title_spec(t) == a + sep_hyphen() + b,
        !contains_sub(a, sep_hyphen()),
        !(a.len() >= 2 && a[a.len() - 2] == ' ' && a[a.len() - 1] == '-'),
        a == trim_spec(a),
        b == trim_spec(b),
        a.contains(','),
    ensures
        parse_title_spec(t) == (b, a),
{
    let c = clean_title_spec(t);
    lemma_first_hyphen_split(c, a, b);
}

} // verus!
