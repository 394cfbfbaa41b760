use jackybot::search::get_search_query;

#[test]
fn url_passes_through() {
    assert_eq!(get_search_query("https://x"), "https://x");
    assert_eq!(get_search_query("http://example.com/a"), "http://example.com/a");
}

#[test]
fn engine_prefix_passes_through() {
    assert_eq!(get_search_query("ytsearch:foo"), "ytsearch:foo");
    assert_eq!(get_search_query("ytmsearch:foo"), "ytmsearch:foo");
    assert_eq!(get_search_query("scsearch:foo"), "scsearch:foo");
    assert_eq!(get_search_query("spsearch:foo"), "spsearch:foo");
}

#[test]
fn free_text_gets_default_prefix() {
    assert_eq!(get_search_query("some song"), "ytsearch:some song");
}
