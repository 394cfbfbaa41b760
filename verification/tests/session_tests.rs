use jackybot::session::GuildSession;
use jackybot::trackqueue::tq_len;

#[test]
fn default_session_state() {
    let s = GuildSession::default();
    assert_eq!(s.volume, 100);
    assert!(!s.loop_mode);
    assert_eq!(s.text_channel, 0);
    assert!(s.idle_timer.is_none());
    assert!(s.update_task.is_none());
    assert!(s.last_requester.is_none());
    assert_eq!(tq_len(&s.queue), 0);
}

#[test]
fn volume_out_of_range_is_rejected_without_mutation() {
    let mut s = GuildSession::default();
    assert!(s.set_volume(50));
    assert_eq!(s.volume, 50);
    assert!(!s.set_volume(150));
    assert_eq!(s.volume, 50);
}

#[test]
fn volume_scale_for_backend() {
    let mut s = GuildSession::default();
    assert!(s.set_volume(50));
    assert_eq!(f32::from(s.volume) / 100.0, 0.5);
}

#[test]
fn loop_toggles_back_and_forth() {
    let mut s = GuildSession::default();
    assert!(s.toggle_loop());
    assert!(s.loop_mode);
    assert!(!s.toggle_loop());
    assert!(!s.loop_mode);
}

#[test]
fn arming_idle_timer_hands_back_previous() {
    let mut s = GuildSession::default();
    assert_eq!(s.arm_idle_timer(7), None);
    assert_eq!(s.idle_timer, Some(7));
    assert_eq!(s.arm_idle_timer(9), Some(7));
    assert_eq!(s.idle_timer, Some(9));
    assert_eq!(s.clear_idle_timer(), Some(9));
    assert_eq!(s.idle_timer, None);
}

#[test]
fn arming_update_task_hands_back_previous() {
    let mut s = GuildSession::default();
    assert_eq!(s.arm_update_task(1), None);
    assert_eq!(s.arm_update_task(2), Some(1));
    assert_eq!(s.update_task, Some(2));
    assert_eq!(s.clear_update_task(), Some(2));
    assert_eq!(s.update_task, None);
}

#[test]
fn enqueue_and_clear_track_mirror() {
    let mut s = GuildSession::default();
    s.enqueue_track(11);
    s.enqueue_track(22);
    assert_eq!(tq_len(&s.queue), 2);
    s.clear_queue();
    assert_eq!(tq_len(&s.queue), 0);
}
