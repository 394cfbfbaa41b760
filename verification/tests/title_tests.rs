use jackybot::title::parse_artist_title;
use jackybot::title::resolve_display;

#[test]
fn no_separator_reports_unknown_artist() {
    let (artist, title) = parse_artist_title("Hello World (Official Video)");
    assert_eq!(artist, "Unknown Artist");
    assert_eq!(title, "Hello World");
}

#[test]
fn bracket_variants_are_stripped() {
    let (artist, title) = parse_artist_title("Song [Lyrics] {HD}");
    assert_eq!(artist, "Unknown Artist");
    assert_eq!(title, "Song");
}

#[test]
fn whitespace_is_collapsed_and_trimmed() {
    let (artist, title) = parse_artist_title("  Hello   World \t ");
    assert_eq!(artist, "Unknown Artist");
    assert_eq!(title, "Hello World");
}

#[test]
fn plausible_split_is_artist_title() {
    let (artist, title) = parse_artist_title("Adele - Hello");
    assert_eq!(artist, "Adele");
    assert_eq!(title, "Hello");
}

#[test]
fn comma_in_left_segment_swaps_roles() {
    let (artist, title) = parse_artist_title("A, C - B");
    assert_eq!(artist, "B");
    assert_eq!(title, "A, C");
}

#[test]
fn long_left_segment_swaps_roles() {
    let left = "x".repeat(40);
    let input = format!("{} - B", left);
    let (artist, title) = parse_artist_title(&input);
    assert_eq!(artist, "B");
    assert_eq!(title, left);
}

#[test]
fn en_dash_separator_splits() {
    let (artist, title) = parse_artist_title("Adele \u{2013} Hello");
    assert_eq!(artist, "Adele");
    assert_eq!(title, "Hello");
}

#[test]
fn em_dash_separator_splits() {
    let (artist, title) = parse_artist_title("Adele \u{2014} Hello");
    assert_eq!(artist, "Adele");
    assert_eq!(title, "Hello");
}

#[test]
fn pipe_and_colon_separators_split() {
    let (artist, title) = parse_artist_title("Adele | Hello");
    assert_eq!(artist, "Adele");
    assert_eq!(title, "Hello");
    let (artist, title) = parse_artist_title("Adele : Hello");
    assert_eq!(artist, "Adele");
    assert_eq!(title, "Hello");
}

#[test]
fn hyphen_has_priority_over_pipe() {
    let (artist, title) = parse_artist_title("A | B - C");
    assert_eq!(artist, "A | B");
    assert_eq!(title, "C");
}

#[test]
fn parser_is_idempotent_on_separator_free_output() {
    let (_, title) = parse_artist_title("Adele - Hello (Live)");
    let (artist2, title2) = parse_artist_title(&title);
    assert_eq!(artist2, "Unknown Artist");
    assert_eq!(title2, title);
}

#[test]
fn known_artist_passes_through() {
    let (artist, title) = resolve_display(
        &Some("Adele".to_string()),
        &Some("Hello - Remix".to_string()),
    );
    assert_eq!(artist, "Adele");
    assert_eq!(title, "Hello - Remix");
}

#[test]
fn unknown_artist_sentinel_triggers_parsing() {
    let (artist, title) = resolve_display(
        &Some("Unknown Artist".to_string()),
        &Some("Adele - Hello".to_string()),
    );
    assert_eq!(artist, "Adele");
    assert_eq!(title, "Hello");
}

#[test]
fn missing_metadata_defaults() {
    let (artist, title) = resolve_display(&None, &None);
    assert_eq!(artist, "Unknown Artist");
    assert_eq!(title, "Unknown Title");
}
