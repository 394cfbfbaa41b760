//! The lyrics lookup strategy: a fixed ladder of (artist, title) rewrites
//! tried in order, and the shaping of a successful response.

use vstd::prelude::*;
use vstd::string::StringExecFns;

use crate::text::trim_spec;
use crate::text::trim_chars;
use crate::text::find_sub_spec;
use crate::text::find_sub;
use crate::text::str_chars;
use crate::text::sub_chars;
use crate::text::chars_to_string;
use crate::text::copy_str;
use crate::links::url_encoded;
use crate::links::encode_component;

verus! {

/// The artist text before the first comma: a multi-artist credit list is
/// cut down to its first name.
pub open spec fn first_comma_segment(a: Seq<char>) -> Seq<char> {
    match find_sub_spec(a, seq![',']) {
        Some(i) => a.subrange(0, i),
        None => a,
    }
}

/// The ladder of (artist, title) pairs tried against the lyrics service,
/// in order.
pub open spec fn candidate_pairs_spec(a: Seq<char>, t: Seq<char>) -> Seq<(Seq<char>, Seq<char>)> {
    seq![
        (a, t),
        (trim_spec(first_comma_segment(a)), t),
        (t, t),
        ("Various Artists"@, t),
        ("Various"@, t),
        ("Classic"@, t),
        ("Popular"@, t),
    ]
}

/// The ladder always has exactly seven rungs, whatever the pair: a fresh
/// resolver yields a first attempt, and seven recorded misses exhaust it.
pub proof fn lemma_ladder_has_seven_rungs(a: Seq<char>, t: Seq<char>)
    ensures
        candidate_pairs_spec(a, t).len() == 7,
{
}

/// One (artist, title) pair to try against the lyrics service.
pub struct LyricsCandidate {
    pub artist: String,
    pub title: String,
}

/// Walks the candidate ladder, one attempt at a time, stopping at the
/// first success; the caller performs each lookup and reports misses.
pub struct LyricsResolver {
    candidates: Vec<LyricsCandidate>,
    next: usize,
}

impl LyricsResolver {
    /// The (artist, title) pairs this resolver will try, in order.
    pub closed spec fn candidates_of(&self) -> Seq<(Seq<char>, Seq<char>)> {
        self.candidates@.map_values(|c: LyricsCandidate| (c.artist@, c.title@))
    }

    /// How many attempts have been reported as misses.
    pub closed spec fn attempted(&self) -> int {
        self.next as int
    }

    /// How many rungs the ladder has.
    pub open spec fn ladder_len(&self) -> int {
        self.candidates_of().len() as int
    }

    /// A resolver for the given (artist, title), with no attempts made.
    pub fn new(artist: &str, title: &str) -> (r: Self)
        ensures
            r.candidates_of() == candidate_pairs_spec(artist@, title@),
            r.attempted() == 0,
    {
        let av = str_chars(artist);
        let comma = str_chars(",");
        proof {
            reveal_strlit(",");
            assert(","@ =~= seq![',']);
        }
        let seg: Vec<char> = match find_sub(&av, &comma) {
            Some(i) => {
                proof {
                    crate::text::lemma_find_sub_contains(av@, comma@);
                }
                sub_chars(&av, 0, i)
            },
            None => sub_chars(&av, 0, av.len()),
        };
        proof {
            assert(av@.subrange(0, av@.len() as int) =~= av@);
        }
        let seg_trimmed = trim_chars(&seg);
        let mut candidates: Vec<LyricsCandidate> = Vec::new();
        candidates.push(LyricsCandidate { artist: copy_str(artist), title: copy_str(title) });
        candidates.push(
            LyricsCandidate { artist: chars_to_string(&seg_trimmed), title: copy_str(title) },
        );
        candidates.push(LyricsCandidate { artist: copy_str(title), title: copy_str(title) });
        candidates.push(
            LyricsCandidate { artist: copy_str("Various Artists"), title: copy_str(title) },
        );
        candidates.push(LyricsCandidate { artist: copy_str("Various"), title: copy_str(title) });
        candidates.push(LyricsCandidate { artist: copy_str("Classic"), title: copy_str(title) });
        candidates.push(LyricsCandidate { artist: copy_str("Popular"), title: copy_str(title) });
        let r = LyricsResolver { candidates, next: 0 };
        proof {
            assert(r.candidates_of() =~= candidate_pairs_spec(artist@, title@));
        }
        r
    }

    /// The next pair to try, or nothing once the ladder is exhausted.
    pub fn next_attempt(&self) -> (r: Option<(String, String)>)
        ensures
            self.attempted() < self.ladder_len() ==> match r {
                Some(p) => (p.0@, p.1@) == self.candidates_of()[self.attempted()],
                None => false,
            },
            self.attempted() >= self.ladder_len() ==> r is None,
    {
        if self.next < self.candidates.len() {
            let c = &self.candidates[self.next];
            Some((c.artist.clone(), c.title.clone()))
        } else {
            None
        }
    }

    /// Records that the current attempt missed, moving to the next rung;
    /// past the last rung nothing changes.
    pub fn record_miss(&mut self)
        ensures
            final(self).candidates_of() == old(self).candidates_of(),
            old(self).attempted() < old(self).ladder_len() ==> final(self).attempted() == old(
                self,
            ).attempted() + 1,
            old(self).attempted() >= old(self).ladder_len() ==> final(self).attempted() == old(
                self,
            ).attempted(),
    {
        if self.next < self.candidates.len() {
            self.next = self.next + 1;
        }
    }
}

/// A run of consecutive line breaks capped at two: the pass that rewrites
/// any run of three or more down to a blank line. `run` counts the breaks
/// already kept directly before `s`.
pub open spec fn squeeze_go(s: Seq<char>, run: int) -> Seq<char>
    decreases s.len(),
{
    if s.len() == 0 {
        Seq::<char>::empty()
    } else if s[0] == '\n' {
        if run >= 2 {
            squeeze_go(s.drop_first(), run + 1)
        } else {
            seq!['\n'] + squeeze_go(s.drop_first(), run + 1)
        }
    } else {
        seq![s[0]] + squeeze_go(s.drop_first(), 0)
    }
}

/// Every run of three or more line breaks reduced to exactly two.
pub open spec fn squeeze_newlines(s: Seq<char>) -> Seq<char> {
    squeeze_go(s, 0)
}

/// Applies the line-break cap to a character vector.
fn squeeze_chars(v: &Vec<char>) -> (r: Vec<char>)
    ensures
        r@ == squeeze_newlines(v@),
{
    let n: usize = v.len();
    let mut out: Vec<char> = Vec::new();
    let mut run: usize = 0;
    let mut i: usize = 0;
    proof {
        assert(v@.subrange(0, n as int) =~= v@);
    }
    while i < n
        invariant
            i <= n,
            run <= i,
            n == v@.len(),
            squeeze_newlines(v@) == out@ + squeeze_go(v@.subrange(i as int, n as int), run as int),
        decreases n - i,
    {
        let ghost rest = v@.subrange(i as int, n as int);
        proof {
            assert(rest.drop_first() =~= v@.subrange(i as int + 1, n as int));
        }
        let c = v[i];
        if c == '\n' {
            if run < 2 {
                out.push('\n');
            }
            run = run + 1;
        } else {
            out.push(c);
            run = 0;
        }
        proof {
            assert(squeeze_newlines(v@) =~= out@ + squeeze_go(
                v@.subrange(i as int + 1, n as int),
                run as int,
            ));
        }
        i = i + 1;
    }
    proof {
        assert(v@.subrange(n as int, n as int) =~= Seq::<char>::empty());
        assert(out@ =~= squeeze_newlines(v@));
    }
    out
}

/// A successful lookup shaped for display: an "Artist - Title" header, a
/// blank line, then the lyrics trimmed and with long break runs capped.
pub open spec fn format_lyrics_spec(a: Seq<char>, t: Seq<char>, raw: Seq<char>) -> Seq<char> {
    a + " - "@ + t + "\n\n"@ + squeeze_newlines(trim_spec(raw))
}

/// Shapes a successful lookup for display.
pub fn format_lyrics(artist: &str, title: &str, raw: &str) -> (r: String)
    ensures
        r@ == format_lyrics_spec(artist@, title@, raw@),
{
    let rv = str_chars(raw);
    let cleaned = squeeze_chars(&trim_chars(&rv));
    let mut r = copy_str(artist);
    r.append(" - ");
    r.append(title);
    r.append("\n\n");
    r.append(chars_to_string(&cleaned).as_str());
    r
}

/// The lookup URL for one (artist, title) attempt.
pub open spec fn lyrics_url_spec(a: Seq<char>, t: Seq<char>) -> Seq<char> {
    "https://api.lyrics.ovh/v1/"@ + url_encoded(a) + "/"@ + url_encoded(t)
}

/// Builds the lookup URL for one attempt.
pub fn lyrics_url(artist: &str, title: &str) -> (r: String)
    ensures
        r@ == lyrics_url_spec(artist@, title@),
{
    let ea = encode_component(artist);
    let et = encode_component(title);
    let mut r = copy_str("https://api.lyrics.ovh/v1/");
    r.append(ea.as_str());
    r.append("/");
    r.append(et.as_str());
    r
}

} // verus!
