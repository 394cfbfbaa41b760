//! Rendering of track and queue state into display strings.

use vstd::prelude::*;
use vstd::string::StringExecFns;
use vstd::arithmetic::div_mod::lemma_div_multiples_vanish;

use crate::numtext::pad2;
use crate::numtext::dec_digits;
use crate::numtext::push_pad2;
use crate::numtext::push_dec_u64;
use crate::numtext::u64_dec_string;
use crate::text::copy_str;
use crate::text::chars_to_string;
use crate::text::str_chars;
use crate::text::contains_sub;
use crate::text::contains_chars;
use crate::title::display_pair_spec;
use crate::title::resolve_display;
use crate::links::yt_thumbnail_spec;
use crate::links::get_youtube_thumbnail;

verus! {

/// The metadata the bot reads off a playable item.
pub struct TrackMeta {
    pub artist: Option<String>,
    pub title: Option<String>,
    pub duration_ms: Option<u64>,
    pub artwork_url: Option<String>,
    pub uri: Option<String>,
}

/// A duration in milliseconds rendered as `mm:ss`, or `hh:mm:ss` once a
/// full hour is reached; zero renders as `00:00`.
pub open spec fn duration_spec(ms: int) -> Seq<char> {
    if ms == 0 {
        "00:00"@
    } else {
        let ts = ms / 1000;
        let h = ts / 3600;
        let m = (ts % 3600) / 60;
        let s = ts % 60;
        if h > 0 {
            pad2(h) + ":"@ + pad2(m) + ":"@ + pad2(s)
        } else {
            pad2(m) + ":"@ + pad2(s)
        }
    }
}

/// Renders a duration in milliseconds for display.
pub fn format_duration(ms: u64) -> (r: String)
    ensures
        r@ == duration_spec(ms as int),
{
    if ms == 0 {
        return copy_str("00:00");
    }
    let ts: u64 = ms / 1000;
    let h: u64 = ts / 3600;
    let m: u64 = (ts % 3600) / 60;
    let s: u64 = ts % 60;
    let mut out: Vec<char> = Vec::new();
    if h > 0 {
        push_pad2(h, &mut out);
        out.push(':');
    }
    push_pad2(m, &mut out);
    out.push(':');
    push_pad2(s, &mut out);
    proof {
        reveal_strlit(":");
        assert(":"@ =~= seq![':']);
        assert(out@ =~= duration_spec(ms as int));
    }
    chars_to_string(&out)
}

/// A twenty-cell bar with the first `filled` cells shaded.
pub open spec fn bar_chars(filled: int) -> Seq<char> {
    Seq::new(20, |i: int| if i < filled { '\u{2593}' } else { '\u{2591}' })
}

/// The rendered progress bar: the filled share and the percentage are the
/// elapsed fraction of the total, rounded down; a zero total renders as an
/// all-empty bar at zero percent.
pub open spec fn progress_bar_spec(cur: int, total: int) -> Seq<char> {
    if total == 0 {
        bar_chars(0) + " 0%"@
    } else {
        let c = if cur > total {
            total
        } else {
            cur
        };
        bar_chars(20 * c / total) + seq![' '] + dec_digits(100 * c / total) + seq!['%']
    }
}

/// Renders the progress bar. A finished track fills the bar completely and
/// reads one hundred percent; an unstarted one is empty at zero percent.
pub fn create_progress_bar(cur: u64, total: u64) -> (r: String)
    ensures
        r@ == progress_bar_spec(cur as int, total as int),
        cur == 0 ==> r@ == bar_chars(0) + " 0%"@,
        cur >= total > 0 ==> r@ == bar_chars(20) + " 100%"@,
{
    proof {
        reveal_strlit(" 0%");
        reveal_strlit(" 100%");
        reveal_strlit("%");
        if total > 0 {
            lemma_div_multiples_vanish(20, total as int);
            lemma_div_multiples_vanish(100, total as int);
        }
    }
    if total == 0 {
        let mut out: Vec<char> = Vec::new();
        let mut i: usize = 0;
        while i < 20
            invariant
                i <= 20,
                out@ =~= bar_chars(0).subrange(0, i as int),
            decreases 20 - i,
        {
            out.push('\u{2591}');
            proof {
                assert(out@ =~= bar_chars(0).subrange(0, i as int + 1));
            }
            i = i + 1;
        }
        out.push(' ');
        out.push('0');
        out.push('%');
        proof {
            assert(bar_chars(0).subrange(0, 20) =~= bar_chars(0));
            assert(out@ =~= bar_chars(0) + " 0%"@);
        }
        return chars_to_string(&out);
    }
    let c: u64 = if cur > total {
        total
    } else {
        cur
    };
    let cw: u128 = c as u128;
    let tw: u128 = total as u128;
    proof {
        assert(20 * (cw as int) / (tw as int) <= 20 && 100 * (cw as int) / (tw as int)
            <= 100) by (nonlinear_arith)
            requires
                cw as int <= tw as int,
                tw as int > 0,
        ;
    }
    let filled: u64 = ((20 * cw) / tw) as u64;
    let pct: u64 = ((100 * cw) / tw) as u64;
    assert(filled == 20 * c as int / total as int);
    assert(pct == 100 * c as int / total as int);
    let mut out: Vec<char> = Vec::new();
    let mut i: usize = 0;
    while i < 20
        invariant
            i <= 20,
            filled <= 20,
            out@ =~= bar_chars(filled as int).subrange(0, i as int),
        decreases 20 - i,
    {
        if (i as u64) < filled {
            out.push('\u{2593}');
        } else {
            out.push('\u{2591}');
        }
        proof {
            assert(out@ =~= bar_chars(filled as int).subrange(0, i as int + 1));
        }
        i = i + 1;
    }
    proof {
        assert(bar_chars(filled as int).subrange(0, 20) =~= bar_chars(filled as int));
    }
    out.push(' ');
    push_dec_u64(pct, &mut out);
    out.push('%');
    proof {
        assert(out@ =~= bar_chars(filled as int) + seq![' '] + dec_digits(pct as int) + seq!['%']);
        if cur >= total {
            assert(dec_digits(1) =~= seq!['1']);
            assert(dec_digits(10) =~= seq!['1', '0']);
            assert(dec_digits(100) =~= seq!['1', '0', '0']);
            assert(out@ =~= bar_chars(20) + " 100%"@);
        }
    }
    chars_to_string(&out)
}

/// The rendered duration of a queue entry, or a question mark when the
/// duration is unknown.
pub open spec fn duration_or_unknown(d: Option<u64>) -> Seq<char> {
    match d {
        Some(ms) => duration_spec(ms as int),
        None => "?"@,
    }
}

/// One numbered line of the queue display.
pub open spec fn track_line_spec(idx: int, artist: Seq<char>, title: Seq<char>, d: Option<u64>) -> Seq<
    char,
> {
    "**"@ + dec_digits(idx) + "**. "@ + artist + " - "@ + title + " `["@ + duration_or_unknown(d)
        + "]`"@
}

/// The displayed line for the queue entry at index `i`.
pub open spec fn entry_line_spec(i: int, m: TrackMeta) -> Seq<char> {
    let p = display_pair_spec(m.artist.deep_view(), m.title.deep_view());
    track_line_spec(i + 1, p.0, p.1, m.duration_ms)
}

/// Renders one numbered queue line.
pub fn track_line(idx: u64, artist: &str, title: &str, d: Option<u64>) -> (r: String)
    ensures
        r@ == track_line_spec(idx as int, artist@, title@, d),
{
    let mut r = copy_str("**");
    r.append(u64_dec_string(idx).as_str());
    r.append("**. ");
    r.append(artist);
    r.append(" - ");
    r.append(title);
    r.append(" `[");
    match d {
        Some(ms) => {
            let ds = format_duration(ms);
            r.append(ds.as_str());
        },
        None => {
            r.append("?");
        },
    }
    r.append("]`");
    r
}

/// The lines after the first, each preceded by a line break, up to the
/// page limit `k`.
pub open spec fn queue_rest_spec(ms: Seq<TrackMeta>, i: int, k: int) -> Seq<char>
    decreases k - i,
{
    if i >= k || i >= ms.len() || i < 0 {
        Seq::<char>::empty()
    } else {
        seq!['\n'] + entry_line_spec(i, ms[i]) + queue_rest_spec(ms, i + 1, k)
    }
}

/// The first page of queue lines, joined by line breaks.
pub open spec fn queue_lines_spec(ms: Seq<TrackMeta>, k: int) -> Seq<char> {
    if ms.len() == 0 || k <= 0 {
        Seq::<char>::empty()
    } else {
        entry_line_spec(0, ms[0]) + queue_rest_spec(ms, 1, k)
    }
}

fn entry_line(i: u64, m: &TrackMeta) -> (r: String)
    requires
        i < 100,
    ensures
        r@ == entry_line_spec(i as int, *m),
{
    let p = resolve_display(&m.artist, &m.title);
    track_line(i + 1, p.0.as_str(), p.1.as_str(), m.duration_ms)
}

/// Renders the first ten queue entries, one numbered line each.
pub fn queue_lines(ms: &Vec<TrackMeta>) -> (r: String)
    ensures
        r@ == queue_lines_spec(ms@, 10),
{
    let n: usize = ms.len();
    if n == 0 {
        return String::new();
    }
    let end: usize = if n < 10 {
        n
    } else {
        10
    };
    let mut acc = entry_line(0, &ms[0]);
    let mut i: usize = 1;
    while i < end
        invariant
            1 <= i <= end,
            end <= n,
            end == if n < 10 {
                n as int
            } else {
                10
            },
            n == ms@.len(),
            queue_lines_spec(ms@, 10) == acc@ + queue_rest_spec(ms@, i as int, 10),
        decreases end - i,
    {
        acc.append("\n");
        let line = entry_line(i as u64, &ms[i]);
        acc.append(line.as_str());
        proof {
            reveal_strlit("\n");
            assert("\n"@ =~= seq!['\n']);
            assert(acc@ + queue_rest_spec(ms@, i as int + 1, 10) =~= queue_lines_spec(ms@, 10));
        }
        i = i + 1;
    }
    proof {
        assert(queue_rest_spec(ms@, i as int, 10) =~= Seq::<char>::empty());
        assert(acc@ =~= queue_lines_spec(ms@, 10));
    }
    acc
}

/// The footer naming how much of the queue is shown.
pub open spec fn queue_footer_spec(total: int) -> Seq<char> {
    let shown = if total < 10 {
        total
    } else {
        10
    };
    "Showing "@ + dec_digits(shown) + " of "@ + dec_digits(total) + " tracks"@
}

/// Renders the queue footer.
pub fn queue_footer(total: usize) -> (r: String)
    ensures
        r@ == queue_footer_spec(total as int),
{
    let shown: usize = if total < 10 {
        total
    } else {
        10
    };
    let mut r = copy_str("Showing ");
    r.append(u64_dec_string(shown as u64).as_str());
    r.append(" of ");
    r.append(u64_dec_string(total as u64).as_str());
    r.append(" tracks");
    r
}

/// The plain-text queue display: a header with the numbered lines and the
/// footer, or an empty-queue notice.
pub open spec fn queue_text_spec(ms: Seq<TrackMeta>) -> Seq<char> {
    if ms.len() == 0 {
        "\u{1F4CB} **Queue is empty**"@
    } else {
        "\u{1F4CB} **Queue**\n"@ + queue_lines_spec(ms, 10) + "\n\n"@ + queue_footer_spec(
            ms.len() as int,
        )
    }
}

/// Renders the plain-text queue display.
pub fn queue_text(ms: &Vec<TrackMeta>) -> (r: String)
    ensures
        r@ == queue_text_spec(ms@),
{
    if ms.len() == 0 {
        return copy_str("\u{1F4CB} **Queue is empty**");
    }
    let mut r = copy_str("\u{1F4CB} **Queue**\n");
    let lines = queue_lines(ms);
    r.append(lines.as_str());
    r.append("\n\n");
    let foot = queue_footer(ms.len());
    r.append(foot.as_str());
    r
}

/// The one-line now-playing message.
pub open spec fn now_playing_message_spec(m: TrackMeta) -> Seq<char> {
    let p = display_pair_spec(m.artist.deep_view(), m.title.deep_view());
    "\u{1F3B5} **Now Playing:** "@ + p.0 + " - "@ + p.1
}

/// Renders the one-line now-playing message.
pub fn now_playing_message(m: &TrackMeta) -> (r: String)
    ensures
        r@ == now_playing_message_spec(*m),
{
    let p = resolve_display(&m.artist, &m.title);
    let mut r = copy_str("\u{1F3B5} **Now Playing:** ");
    r.append(p.0.as_str());
    r.append(" - ");
    r.append(p.1.as_str());
    r
}

/// The reply to a now-playing request: the current track's line when one
/// is playing, a no-track notice when a call exists without one, and a
/// connection notice when there is no voice call at all.
pub fn np_reply(connected: bool, current: Option<&TrackMeta>) -> (r: String)
    ensures
        !connected ==> r@ == "Not connected to voice."@,
        connected ==> match current {
            Some(m) => r@ == now_playing_message_spec(*m),
            None => r@ == "No song is currently playing."@,
        },
{
    if !connected {
        crate::messages::not_connected_message()
    } else {
        match current {
            Some(m) => now_playing_message(m),
            None => crate::messages::no_song_message(),
        }
    }
}

/// The fields of the now-playing card.
pub struct NowPlayingView {
    pub artist: String,
    pub title: String,
    pub duration: Option<String>,
    pub progress: Option<String>,
    pub image: Option<String>,
}

/// The image chosen for the card: the artwork when present, else a
/// thumbnail read out of a recognizably YouTube source URL.
pub open spec fn card_image_spec(m: TrackMeta) -> Option<Seq<char>> {
    match m.artwork_url {
        Some(a) => Some(a@),
        None => match m.uri {
            Some(u) => {
                if contains_sub(u@, "youtube.com"@) || contains_sub(u@, "youtu.be"@) {
                    yt_thumbnail_spec(u@)
                } else {
                    None
                }
            },
            None => None,
        },
    }
}

/// Builds the now-playing card fields from track metadata.
pub fn now_playing_view(m: &TrackMeta, show_progress: bool) -> (r: NowPlayingView)
    ensures
        ({
            let p = display_pair_spec(m.artist.deep_view(), m.title.deep_view());
            r.artist@ == p.0 && r.title@ == p.1
        }),
        r.duration.deep_view() == match m.duration_ms {
            Some(d) => Some(duration_spec(d as int)),
            None => None::<Seq<char>>,
        },
        r.progress.deep_view() == if show_progress {
            Some(
                progress_bar_spec(
                    0,
                    match m.duration_ms {
                        Some(d) => d as int,
                        None => 0,
                    },
                ),
            )
        } else {
            None::<Seq<char>>
        },
        r.image.deep_view() == card_image_spec(*m),
{
    let p = resolve_display(&m.artist, &m.title);
    let duration: Option<String> = match m.duration_ms {
        Some(d) => Some(format_duration(d)),
        None => None,
    };
    let progress: Option<String> = if show_progress {
        let total: u64 = match m.duration_ms {
            Some(d) => d,
            None => 0,
        };
        Some(create_progress_bar(0, total))
    } else {
        None
    };
    let image: Option<String> = match &m.artwork_url {
        Some(a) => Some(copy_str(a.as_str())),
        None => match &m.uri {
            Some(u) => {
                let uv = str_chars(u.as_str());
                let yt1 = str_chars("youtube.com");
                let yt2 = str_chars("youtu.be");
                if contains_chars(&uv, &yt1) || contains_chars(&uv, &yt2) {
                    get_youtube_thumbnail(u.as_str())
                } else {
                    None
                }
            },
            None => None,
        },
    };
    NowPlayingView { artist: p.0, title: p.1, duration, progress, image }
}

} // verus!
