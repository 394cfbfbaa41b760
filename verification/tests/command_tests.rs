use jackybot::commands::PauseAction;
use jackybot::commands::parse_volume;
use jackybot::commands::pause_toggle_action;
use jackybot::commands::RemoveDecision;
use jackybot::commands::remove_decision;
use jackybot::commands::seek_target;
use jackybot::commands::skip_reply;
use jackybot::messages::join_failed_message;
use jackybot::messages::loop_status_message;
use jackybot::messages::removed_message;
use jackybot::messages::seeked_message;
use jackybot::messages::volume_set_message;
use jackybot::numtext::parse_i64;
use jackybot::numtext::parse_u64;

#[test]
fn toggle_pauses_a_playing_track() {
    assert_eq!(pause_toggle_action(true), PauseAction::Pause);
    assert_eq!(pause_toggle_action(false), PauseAction::Resume);
}

#[test]
fn seek_clamps_into_track_range() {
    assert_eq!(seek_target(5_000, -10, 60_000), 0);
    assert_eq!(seek_target(5_000, 10, 60_000), 15_000);
    assert_eq!(seek_target(59_000, 10, 60_000), 60_000);
    assert_eq!(seek_target(0, 0, 0), 0);
}

#[test]
fn remove_decision_is_one_based() {
    assert_eq!(remove_decision(5, "1"), RemoveDecision::Removed(0));
    assert_eq!(remove_decision(5, "5"), RemoveDecision::Removed(4));
}

#[test]
fn remove_decision_flags_bad_input() {
    assert_eq!(remove_decision(5, "0"), RemoveDecision::BadInput);
    assert_eq!(remove_decision(5, ""), RemoveDecision::BadInput);
    assert_eq!(remove_decision(5, "abc"), RemoveDecision::BadInput);
}

#[test]
fn remove_decision_flags_out_of_range() {
    assert_eq!(remove_decision(5, "6"), RemoveDecision::OutOfRange);
    assert_eq!(remove_decision(0, "1"), RemoveDecision::OutOfRange);
}

#[test]
fn volume_parsing_accepts_up_to_one_hundred() {
    assert_eq!(parse_volume("0"), Some(0));
    assert_eq!(parse_volume("100"), Some(100));
    assert_eq!(parse_volume("101"), None);
    assert_eq!(parse_volume("150"), None);
    assert_eq!(parse_volume("abc"), None);
    assert_eq!(parse_volume(""), None);
    assert_eq!(parse_volume("+50"), Some(50));
}

#[test]
fn unsigned_parsing_matches_std_grammar() {
    assert_eq!(parse_u64("18446744073709551615"), Some(u64::MAX));
    assert_eq!(parse_u64("18446744073709551616"), None);
    assert_eq!(parse_u64("-1"), None);
    assert_eq!(parse_u64("1 2"), None);
}

#[test]
fn signed_parsing_covers_the_full_range() {
    assert_eq!(parse_i64("-10"), Some(-10));
    assert_eq!(parse_i64("+10"), Some(10));
    assert_eq!(parse_i64("9223372036854775807"), Some(i64::MAX));
    assert_eq!(parse_i64("9223372036854775808"), None);
    assert_eq!(parse_i64("-9223372036854775808"), Some(i64::MIN));
    assert_eq!(parse_i64("-9223372036854775809"), None);
}

#[test]
fn skip_reply_cases() {
    assert_eq!(skip_reply(false, false, "u"), "Not connected to voice.");
    assert_eq!(skip_reply(true, true, "u"), "u skipped");
    assert_eq!(skip_reply(true, false, "u"), "Nothing to skip.");
}

#[test]
fn command_reply_texts() {
    assert_eq!(volume_set_message(50), "Volume set to 50%");
    assert_eq!(loop_status_message(true), "Loop on");
    assert_eq!(loop_status_message(false), "Loop off");
    assert_eq!(removed_message("A", "T"), "Removed: A - T");
    assert_eq!(seeked_message(-10), "Seeked -10 seconds");
    assert_eq!(seeked_message(10), "Seeked 10 seconds");
    assert_eq!(
        join_failed_message("busy"),
        "Failed to join voice channel: busy"
    );
}
