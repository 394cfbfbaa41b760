use jackybot::store::PlayError;
use jackybot::store::SearchLoad;
use jackybot::store::SessionStore;
use jackybot::store::play_error_message;
use jackybot::trackqueue::tq_get;
use jackybot::trackqueue::tq_len;

#[test]
fn empty_query_is_rejected_without_creating_a_session() {
    let mut store = SessionStore::new();
    let r = store.play_open(1, "", Some(5), 9);
    assert_eq!(r, Err(PlayError::EmptyQuery));
    assert!(!store.has_session(1));
}

#[test]
fn missing_voice_channel_is_rejected_without_creating_a_session() {
    let mut store = SessionStore::new();
    let r = store.play_open(1, "song", None, 9);
    assert_eq!(r, Err(PlayError::NotInVoice));
    assert!(!store.has_session(1));
}

#[test]
fn play_open_creates_session_and_binds_channel() {
    let mut store = SessionStore::new();
    let r = store.play_open(1, "song", Some(5), 9);
    assert_eq!(r, Ok(5));
    assert!(store.has_session(1));
    let s = store.get_session(1).unwrap();
    assert_eq!(s.text_channel, 9);
    assert_eq!(s.volume, 100);
}

#[test]
fn play_open_rebinds_channel_on_existing_session() {
    let mut store = SessionStore::new();
    store.play_open(1, "song", Some(5), 9).unwrap();
    store.set_session_volume(1, 40);
    store.play_open(1, "another", Some(5), 12).unwrap();
    let s = store.get_session(1).unwrap();
    assert_eq!(s.text_channel, 12);
    assert_eq!(s.volume, 40);
}

#[test]
fn single_track_records_requester_and_message() {
    let mut store = SessionStore::new();
    store.play_open(1, "song", Some(5), 9).unwrap();
    let r = store.complete_play(1, 77, "song", SearchLoad::Track(42));
    assert_eq!(r, Ok("Queued: song".to_string()));
    let s = store.get_session(1).unwrap();
    assert_eq!(s.last_requester, Some(77));
    assert_eq!(tq_len(&s.queue), 1);
    assert_eq!(tq_get(&s.queue, 0), 42);
}

#[test]
fn playlist_bulk_import_skips_requester() {
    let mut store = SessionStore::new();
    store.play_open(1, "list", Some(5), 9).unwrap();
    let r = store.complete_play(1, 77, "list", SearchLoad::Playlist(vec![1, 2, 3]));
    assert_eq!(r, Ok("Queued playlist with 3 tracks".to_string()));
    let s = store.get_session(1).unwrap();
    assert_eq!(s.last_requester, None);
    assert_eq!(tq_len(&s.queue), 3);
    assert_eq!(tq_get(&s.queue, 2), 3);
}

#[test]
fn search_hits_import_every_track() {
    let mut store = SessionStore::new();
    store.play_open(1, "q", Some(5), 9).unwrap();
    let r = store.complete_play(1, 77, "q", SearchLoad::SearchHits(vec![8, 9]));
    assert_eq!(r, Ok("Queued playlist with 2 tracks".to_string()));
    assert_eq!(tq_len(&store.get_session(1).unwrap().queue), 2);
}

#[test]
fn empty_results_report_no_results() {
    let mut store = SessionStore::new();
    store.play_open(1, "q", Some(5), 9).unwrap();
    assert_eq!(store.complete_play(1, 77, "q", SearchLoad::Empty), Err(PlayError::NoResults));
    assert_eq!(
        store.complete_play(1, 77, "q", SearchLoad::Playlist(vec![])),
        Err(PlayError::NoResults)
    );
    assert_eq!(
        store.complete_play(1, 77, "q", SearchLoad::Unplayable),
        Err(PlayError::NoPlayable)
    );
    assert_eq!(tq_len(&store.get_session(1).unwrap().queue), 0);
}

#[test]
fn store_volume_rejects_out_of_range() {
    let mut store = SessionStore::new();
    store.play_open(1, "q", Some(5), 9).unwrap();
    assert!(!store.set_session_volume(1, 150));
    assert_eq!(store.get_session(1).unwrap().volume, 100);
    assert!(store.set_session_volume(1, 50));
    assert_eq!(store.get_session(1).unwrap().volume, 50);
}

#[test]
fn store_toggle_loop_roundtrip() {
    let mut store = SessionStore::new();
    assert_eq!(store.toggle_loop(1), None);
    store.play_open(1, "q", Some(5), 9).unwrap();
    assert_eq!(store.toggle_loop(1), Some(true));
    assert_eq!(store.toggle_loop(1), Some(false));
}

#[test]
fn note_activity_disarms_idle_timer() {
    let mut store = SessionStore::new();
    assert_eq!(store.note_activity(1), None);
    store.play_open(1, "q", Some(5), 9).unwrap();
    assert_eq!(store.arm_idle_timer(1, 33), Some(None));
    assert_eq!(store.note_activity(1), Some(33));
    assert_eq!(store.get_session(1).unwrap().idle_timer, None);
}

#[test]
fn play_error_messages() {
    assert_eq!(
        play_error_message(PlayError::EmptyQuery),
        "Please provide a search query or URL."
    );
    assert_eq!(
        play_error_message(PlayError::NotInVoice),
        "You must be in a voice channel to use this command."
    );
    assert_eq!(play_error_message(PlayError::NoResults), "No results found.");
    assert_eq!(play_error_message(PlayError::NoPlayable), "No playable tracks found.");
}

#[test]
fn arming_idle_timer_twice_cancels_first() {
    let mut store = SessionStore::new();
    store.play_open(1, "q", Some(5), 9).unwrap();
    assert_eq!(store.arm_idle_timer(1, 33), Some(None));
    assert_eq!(store.arm_idle_timer(1, 44), Some(Some(33)));
    assert_eq!(store.get_session(1).unwrap().idle_timer, Some(44));
}
