use jackybot::render::TrackMeta;
use jackybot::render::create_progress_bar;
use jackybot::render::format_duration;
use jackybot::render::now_playing_message;
use jackybot::render::now_playing_view;
use jackybot::render::np_reply;
use jackybot::render::queue_footer;
use jackybot::render::queue_text;
use jackybot::render::track_line;

fn meta(artist: &str, title: &str, ms: Option<u64>) -> TrackMeta {
    TrackMeta {
        artist: Some(artist.to_string()),
        title: Some(title.to_string()),
        duration_ms: ms,
        artwork_url: None,
        uri: None,
    }
}

#[test]
fn zero_duration_renders_zeros() {
    assert_eq!(format_duration(0), "00:00");
}

#[test]
fn durations_render_with_padding() {
    assert_eq!(format_duration(1_000), "00:01");
    assert_eq!(format_duration(61_000), "01:01");
    assert_eq!(format_duration(3_599_000), "59:59");
    assert_eq!(format_duration(3_600_000), "01:00:00");
    assert_eq!(format_duration(90_061_000), "25:01:01");
}

#[test]
fn progress_bar_empty_at_zero_total() {
    let expected = format!("{} 0%", "\u{2591}".repeat(20));
    assert_eq!(create_progress_bar(0, 0), expected);
}

#[test]
fn progress_bar_full_at_completion() {
    let expected = format!("{} 100%", "\u{2593}".repeat(20));
    assert_eq!(create_progress_bar(100, 100), expected);
    assert_eq!(create_progress_bar(250, 100), expected);
}

#[test]
fn progress_bar_empty_at_start() {
    let expected = format!("{} 0%", "\u{2591}".repeat(20));
    assert_eq!(create_progress_bar(0, 100), expected);
}

#[test]
fn progress_bar_partial() {
    let expected = format!("{}{} 25%", "\u{2593}".repeat(5), "\u{2591}".repeat(15));
    assert_eq!(create_progress_bar(50, 200), expected);
}

#[test]
fn track_line_renders_fields() {
    assert_eq!(
        track_line(1, "A", "T", Some(61_000)),
        "**1**. A - T `[01:01]`"
    );
    assert_eq!(track_line(2, "A", "T", None), "**2**. A - T `[?]`");
}

#[test]
fn queue_footer_caps_shown_count() {
    assert_eq!(queue_footer(3), "Showing 3 of 3 tracks");
    assert_eq!(queue_footer(15), "Showing 10 of 15 tracks");
}

#[test]
fn queue_text_empty_notice() {
    let ms: Vec<TrackMeta> = Vec::new();
    assert_eq!(queue_text(&ms), "\u{1F4CB} **Queue is empty**");
}

#[test]
fn queue_text_lists_entries_with_footer() {
    let ms = vec![meta("A", "T", Some(61_000)), meta("B", "U", None)];
    assert_eq!(
        queue_text(&ms),
        "\u{1F4CB} **Queue**\n**1**. A - T `[01:01]`\n**2**. B - U `[?]`\n\nShowing 2 of 2 tracks"
    );
}

#[test]
fn now_playing_message_text() {
    assert_eq!(
        now_playing_message(&meta("A", "T", None)),
        "\u{1F3B5} **Now Playing:** A - T"
    );
}

#[test]
fn np_reply_distinguishes_connection_and_track() {
    let m = meta("A", "T", None);
    assert_eq!(np_reply(false, None), "Not connected to voice.");
    assert_eq!(np_reply(false, Some(&m)), "Not connected to voice.");
    assert_eq!(np_reply(true, None), "No song is currently playing.");
    assert_eq!(np_reply(true, Some(&m)), "\u{1F3B5} **Now Playing:** A - T");
}

#[test]
fn now_playing_view_fields() {
    let v = now_playing_view(&meta("A", "T", Some(61_000)), true);
    assert_eq!(v.artist, "A");
    assert_eq!(v.title, "T");
    assert_eq!(v.duration, Some("01:01".to_string()));
    assert_eq!(
        v.progress,
        Some(format!("{} 0%", "\u{2591}".repeat(20)))
    );
    assert_eq!(v.image, None);
}

#[test]
fn now_playing_view_prefers_artwork() {
    let mut m = meta("A", "T", None);
    m.artwork_url = Some("https://art".to_string());
    m.uri = Some("https://youtube.com/watch?v=dQw4w9WgXcQ".to_string());
    let v = now_playing_view(&m, false);
    assert_eq!(v.image, Some("https://art".to_string()));
    assert_eq!(v.progress, None);
}

#[test]
fn now_playing_view_falls_back_to_thumbnail() {
    let mut m = meta("A", "T", None);
    m.uri = Some("https://youtube.com/watch?v=dQw4w9WgXcQ".to_string());
    let v = now_playing_view(&m, false);
    assert_eq!(
        v.image,
        Some("https://img.youtube.com/vi/dQw4w9WgXcQ/maxresdefault.jpg".to_string())
    );
}
