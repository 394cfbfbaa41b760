use jackybot::links::get_youtube_thumbnail;
use jackybot::links::spotify_link;
use jackybot::links::youtube_link;
use jackybot::messages::lyrics_card_text;
use jackybot::messages::lyrics_filename;

#[test]
fn spotify_search_link_is_encoded() {
    assert_eq!(
        spotify_link("a b", "c"),
        "\u{1F50D} **Spotify Search:** https://open.spotify.com/search/a%20b%20c"
    );
}

#[test]
fn youtube_search_link_is_encoded() {
    assert_eq!(
        youtube_link("a", "c d"),
        "\u{1F50D} **YouTube Search:** https://www.youtube.com/search?q=a%20c%20d"
    );
}

#[test]
fn watch_url_yields_thumbnail() {
    assert_eq!(
        get_youtube_thumbnail("https://youtube.com/watch?v=dQw4w9WgXcQ"),
        Some("https://img.youtube.com/vi/dQw4w9WgXcQ/maxresdefault.jpg".to_string())
    );
}

#[test]
fn short_and_embed_urls_yield_thumbnails() {
    assert_eq!(
        get_youtube_thumbnail("https://youtu.be/abcdefghijk"),
        Some("https://img.youtube.com/vi/abcdefghijk/maxresdefault.jpg".to_string())
    );
    assert_eq!(
        get_youtube_thumbnail("https://youtube.com/embed/abcdefghijk?x=1"),
        Some("https://img.youtube.com/vi/abcdefghijk/maxresdefault.jpg".to_string())
    );
    assert_eq!(
        get_youtube_thumbnail("https://youtube.com/v/abcdefghijk"),
        Some("https://img.youtube.com/vi/abcdefghijk/maxresdefault.jpg".to_string())
    );
}

#[test]
fn short_identifier_is_rejected() {
    assert_eq!(get_youtube_thumbnail("https://youtu.be/short"), None);
    assert_eq!(get_youtube_thumbnail("https://example.com/x"), None);
}

#[test]
fn identifier_is_cut_at_eleven_characters() {
    assert_eq!(
        get_youtube_thumbnail("https://youtu.be/abcdefghijklmnop"),
        Some("https://img.youtube.com/vi/abcdefghijk/maxresdefault.jpg".to_string())
    );
}

#[test]
fn lyrics_attachment_names() {
    assert_eq!(lyrics_filename("A", "T"), "A - T - Lyrics.txt");
    assert_eq!(
        lyrics_card_text("A", "T"),
        "**T** by **A**\n\nLyrics are attached as a text file above!"
    );
}
