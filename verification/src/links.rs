//! Outbound links built from track metadata: encoded search URLs and
//! YouTube thumbnail extraction.

use vstd::prelude::*;
use vstd::string::StringExecFns;

use crate::text::occurs_at;
use crate::text::occurs_check;
use crate::text::sub_chars;
use crate::text::str_chars;
use crate::text::copy_str;
use crate::text::chars_to_string;

verus! {

/// What `urlencoding::encode` returns for a string: a function of the
/// characters alone.
pub uninterp spec fn url_encoded(s: Seq<char>) -> Seq<char>;

/// Relies on `urlencoding::encode`: percent-encodes every byte outside
/// `0-9A-Za-z-._~`, so the result depends on the input characters alone,
/// and an empty input stays empty.
#[verifier::external_body]
pub(crate) fn encode_component(s: &str) -> (r: String)
    ensures
        r@ == url_encoded(s@),
        s@.len() == 0 ==> r@.len() == 0,
{
    urlencoding::encode(s).into_owned()
}

/// The free-text query used for external track searches.
pub open spec fn pair_query_spec(artist: Seq<char>, title: Seq<char>) -> Seq<char> {
    artist + seq![' '] + title
}

/// The message pointing at a Spotify search for the current track.
pub open spec fn spotify_link_spec(artist: Seq<char>, title: Seq<char>) -> Seq<char> {
    "\u{1F50D} **Spotify Search:** https://open.spotify.com/search/"@ + url_encoded(
        pair_query_spec(artist, title),
    )
}

/// The message pointing at a YouTube search for the current track.
pub open spec fn youtube_link_spec(artist: Seq<char>, title: Seq<char>) -> Seq<char> {
    "\u{1F50D} **YouTube Search:** https://www.youtube.com/search?q="@ + url_encoded(
        pair_query_spec(artist, title),
    )
}

fn pair_query(artist: &str, title: &str) -> (r: String)
    ensures
        r@ == pair_query_spec(artist@, title@),
{
    let mut q = copy_str(artist);
    q.append(" ");
    q.append(title);
    proof {
        reveal_strlit(" ");
        assert(" "@ =~= seq![' ']);
    }
    q
}

/// Builds the Spotify search message for a track.
pub fn spotify_link(artist: &str, title: &str) -> (r: String)
    ensures
        r@ == spotify_link_spec(artist@, title@),
{
    let q = pair_query(artist, title);
    let e = encode_component(q.as_str());
    let mut r = copy_str("\u{1F50D} **Spotify Search:** https://open.spotify.com/search/");
    r.append(e.as_str());
    r
}

/// Builds the YouTube search message for a track.
pub fn youtube_link(artist: &str, title: &str) -> (r: String)
    ensures
        r@ == youtube_link_spec(artist@, title@),
{
    let q = pair_query(artist, title);
    let e = encode_component(q.as_str());
    let mut r = copy_str("\u{1F50D} **YouTube Search:** https://www.youtube.com/search?q=");
    r.append(e.as_str());
    r
}

/// A character allowed in a YouTube video identifier.
pub open spec fn id_char(c: char) -> bool {
    ||| (48 <= c as u32 && c as u32 <= 57)
    ||| (65 <= c as u32 && c as u32 <= 90)
    ||| (97 <= c as u32 && c as u32 <= 122)
    ||| c == '_'
    ||| c == '-'
}

fn id_char_c(c: char) -> (r: bool)
    ensures
        r == id_char(c),
{
    let v: u32 = c as u32;
    (48 <= v && v <= 57) || (65 <= v && v <= 90) || (97 <= v && v <= 122) || c == '_' || c == '-'
}

pub open spec fn yt_watch_prefix() -> Seq<char> {
    "youtube.com/watch?v="@
}

pub open spec fn yt_short_prefix() -> Seq<char> {
    "youtu.be/"@
}

pub open spec fn yt_embed_prefix() -> Seq<char> {
    "youtube.com/embed/"@
}

pub open spec fn yt_v_prefix() -> Seq<char> {
    "youtube.com/v/"@
}

/// The length of the video-URL prefix found at position `i`, if any.
pub open spec fn yt_prefix_at(s: Seq<char>, i: int) -> Option<int> {
    if occurs_at(s, yt_watch_prefix(), i) {
        Some(yt_watch_prefix().len() as int)
    } else if occurs_at(s, yt_short_prefix(), i) {
        Some(yt_short_prefix().len() as int)
    } else if occurs_at(s, yt_embed_prefix(), i) {
        Some(yt_embed_prefix().len() as int)
    } else if occurs_at(s, yt_v_prefix(), i) {
        Some(yt_v_prefix().len() as int)
    } else {
        None
    }
}

/// The eleven-character video identifier read at position `i`, if a prefix
/// with enough identifier characters after it starts there.
pub open spec fn yt_id_at(s: Seq<char>, i: int) -> Option<Seq<char>> {
    match yt_prefix_at(s, i) {
        Some(l) => {
            let j = i + l;
            if j + 11 <= s.len() && (forall|k: int| j <= k < j + 11 ==> id_char(s[k])) {
                Some(s.subrange(j, j + 11))
            } else {
                None
            }
        },
        None => None,
    }
}

/// The identifier of the first readable video reference at or after `i`.
pub open spec fn yt_id_from(s: Seq<char>, i: int) -> Option<Seq<char>>
    decreases s.len() - i,
{
    if i < 0 || i >= s.len() {
        None
    } else if yt_id_at(s, i) is Some {
        yt_id_at(s, i)
    } else {
        yt_id_from(s, i + 1)
    }
}

/// The first video identifier readable in a URL.
pub open spec fn yt_id_spec(s: Seq<char>) -> Option<Seq<char>> {
    yt_id_from(s, 0)
}

/// The thumbnail URL derived from a video URL.
pub open spec fn yt_thumbnail_spec(s: Seq<char>) -> Option<Seq<char>> {
    match yt_id_spec(s) {
        Some(id) => Some("https://img.youtube.com/vi/"@ + id + "/maxresdefault.jpg"@),
        None => None,
    }
}

proof fn lemma_yt_id_from_skip(s: Seq<char>, i: int)
    requires
        0 <= i <= s.len(),
        forall|p: int| 0 <= p < i ==> yt_id_at(s, p) is None,
    ensures
        yt_id_from(s, 0) == yt_id_from(s, i),
    decreases i,
{
    if i > 0 {
        lemma_yt_id_from_skip(s, i - 1);
        assert(yt_id_at(s, i - 1) is None);
    }
}

/// Tries to read a video identifier at position `i`.
fn yt_id_check(v: &Vec<char>, ps: &[Vec<char>; 4], i: usize) -> (r: Option<Vec<char>>)
    requires
        i < v@.len(),
        ps[0]@ == yt_watch_prefix(),
        ps[1]@ == yt_short_prefix(),
        ps[2]@ == yt_embed_prefix(),
        ps[3]@ == yt_v_prefix(),
    ensures
        match r {
            Some(id) => yt_id_at(v@, i as int) == Some(id@),
            None => yt_id_at(v@, i as int) is None,
        },
{
    let n: usize = v.len();
    let mut l: usize = 0;
    let mut found: bool = false;
    if !found && ps[0].len() <= n - i {
        if occurs_check(v, &ps[0], i) {
            l = ps[0].len();
            found = true;
        }
    }
    if !found && ps[1].len() <= n - i {
        if occurs_check(v, &ps[1], i) {
            l = ps[1].len();
            found = true;
        }
    }
    if !found && ps[2].len() <= n - i {
        if occurs_check(v, &ps[2], i) {
            l = ps[2].len();
            found = true;
        }
    }
    if !found && ps[3].len() <= n - i {
        if occurs_check(v, &ps[3], i) {
            l = ps[3].len();
            found = true;
        }
    }
    if !found {
        return None;
    }
    assert(yt_prefix_at(v@, i as int) == Some(l as int));
    let j: usize = i + l;
    if n - j < 11 {
        return None;
    }
    let mut k: usize = 0;
    while k < 11
        invariant
            k <= 11,
            j + 11 <= n,
            n == v@.len(),
            j == i + l,
            yt_prefix_at(v@, i as int) == Some(l as int),
            forall|p: int| j <= p < j + k ==> id_char(v@[p]),
        decreases 11 - k,
    {
        if !id_char_c(v[j + k]) {
            assert(!id_char(v@[j + k]));
            assert(yt_id_at(v@, i as int) is None);
            return None;
        }
        k = k + 1;
    }
    Some(sub_chars(v, j, j + 11))
}

/// Reads the first video identifier out of a URL, if any.
pub fn yt_video_id(v: &Vec<char>) -> (r: Option<Vec<char>>)
    ensures
        match r {
            Some(id) => yt_id_spec(v@) == Some(id@),
            None => yt_id_spec(v@) is None,
        },
{
    let ps: [Vec<char>; 4] = [
        str_chars("youtube.com/watch?v="),
        str_chars("youtu.be/"),
        str_chars("youtube.com/embed/"),
        str_chars("youtube.com/v/"),
    ];
    let n: usize = v.len();
    let mut i: usize = 0;
    while i < n
        invariant
            i <= n,
            n == v@.len(),
            ps[0]@ == yt_watch_prefix(),
            ps[1]@ == yt_short_prefix(),
            ps[2]@ == yt_embed_prefix(),
            ps[3]@ == yt_v_prefix(),
            forall|p: int| 0 <= p < i ==> yt_id_at(v@, p) is None,
        decreases n - i,
    {
        match yt_id_check(v, &ps, i) {
            Some(id) => {
                proof {
                    lemma_yt_id_from_skip(v@, i as int);
                }
                return Some(id);
            },
            None => {
                i = i + 1;
            },
        }
    }
    proof {
        lemma_yt_id_from_skip(v@, n as int);
    }
    None
}

/// The thumbnail URL for a video URL, when an identifier can be read.
pub fn get_youtube_thumbnail(url: &str) -> (r: Option<String>)
    ensures
        match r {
            Some(t) => yt_thumbnail_spec(url@) == Some(t@),
            None => yt_thumbnail_spec(url@) is None,
        },
{
    let v = str_chars(url);
    match yt_video_id(&v) {
        Some(id) => {
            let mut t = copy_str("https://img.youtube.com/vi/");
            t.append(chars_to_string(&id).as_str());
            t.append("/maxresdefault.jpg");
            Some(t)
        },
        None => None,
    }
}

} // verus!
