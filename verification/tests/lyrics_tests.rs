use jackybot::json::lyrics_from_body;
use jackybot::lyrics::LyricsResolver;
use jackybot::lyrics::format_lyrics;
use jackybot::lyrics::lyrics_url;
use jackybot::messages::lyrics_not_found_message;

#[test]
fn candidate_ladder_in_order() {
    let mut r = LyricsResolver::new("X, Y", "T");
    let expected = [
        ("X, Y", "T"),
        ("X", "T"),
        ("T", "T"),
        ("Various Artists", "T"),
        ("Various", "T"),
        ("Classic", "T"),
        ("Popular", "T"),
    ];
    for (artist, title) in expected {
        let (a, t) = r.next_attempt().unwrap();
        assert_eq!(a, artist);
        assert_eq!(t, title);
        r.record_miss();
    }
    assert!(r.next_attempt().is_none());
}

#[test]
fn first_comma_segment_is_trimmed() {
    let r = LyricsResolver::new("A, B", "T");
    let mut r = r;
    let first = r.next_attempt().unwrap();
    assert_eq!(first.0, "A, B");
    r.record_miss();
    let second = r.next_attempt().unwrap();
    assert_eq!(second.0, "A");
    assert_eq!(second.1, "T");
}

#[test]
fn comma_free_artist_repeats_in_second_rung() {
    let mut r = LyricsResolver::new("Solo", "T");
    r.record_miss();
    let second = r.next_attempt().unwrap();
    assert_eq!(second.0, "Solo");
}

#[test]
fn success_formatting_adds_header_and_caps_breaks() {
    let out = format_lyrics("A", "T", "  line1\n\n\n\nline2  ");
    assert_eq!(out, "A - T\n\nline1\n\nline2");
}

#[test]
fn two_breaks_are_kept() {
    let out = format_lyrics("A", "T", "x\n\ny");
    assert_eq!(out, "A - T\n\nx\n\ny");
}

#[test]
fn lookup_url_is_percent_encoded() {
    assert_eq!(
        lyrics_url("A B", "T/x"),
        "https://api.lyrics.ovh/v1/A%20B/T%2Fx"
    );
}

#[test]
fn body_with_lyrics_field_is_read() {
    assert_eq!(lyrics_from_body("{\"lyrics\":\"la la\"}"), Some("la la".to_string()));
}

#[test]
fn body_without_lyrics_field_is_a_miss() {
    assert_eq!(lyrics_from_body("{\"other\":1}"), None);
    assert_eq!(lyrics_from_body("{\"lyrics\":5}"), None);
    assert_eq!(lyrics_from_body("not json"), None);
}

#[test]
fn terminal_failure_message_text() {
    let m = lyrics_not_found_message();
    assert!(m.starts_with("No lyrics found for this song."));
}
