//! Session lifecycle: joining, activity, teardown, and the
//! last-member-disconnected notifier.

use destiny::manager::PlayerManager;
use destiny::track::{JoinPlan, TrackMetadata};
use destiny::PlayerError;

fn meta(title: &str, url: &str) -> TrackMetadata {
    TrackMetadata {
        title: Some(title.to_string()),
        source_url: Some(url.to_string()),
        duration_secs: None,
    }
}

#[test]
fn join_requires_a_voice_channel() {
    let m = PlayerManager::new();
    assert_eq!(m.join_plan(1, None), Err(PlayerError::NotInVoiceChannel));
}

#[test]
fn join_connects_to_the_users_channel() {
    let m = PlayerManager::new();
    assert_eq!(m.join_plan(1, Some(77)), Ok(JoinPlan::Connect(77)));
}

#[test]
fn join_reuses_a_live_session() {
    let mut m = PlayerManager::new();
    m.complete_join(1, 77);
    // Whatever channel the user sits in now, the live session wins.
    assert_eq!(m.join_plan(1, Some(99)), Ok(JoinPlan::AlreadyConnected(77)));
    assert_eq!(m.join_plan(1, None), Ok(JoinPlan::AlreadyConnected(77)));
}

#[test]
fn is_active_tracks_the_session() {
    let mut m = PlayerManager::new();
    assert!(!m.is_active(1));
    m.complete_join(1, 77);
    assert!(m.is_active(1));
    assert!(!m.is_active(2));
}

#[test]
fn teardown_is_idempotent() {
    let mut m = PlayerManager::new();
    m.complete_join(1, 77);
    assert!(m.teardown(1));
    assert!(!m.is_active(1));
    assert!(!m.teardown(1));
    assert!(!m.is_active(1));
}

#[test]
fn last_member_leaving_tears_down_the_session() {
    let mut m = PlayerManager::new();
    m.complete_join(1, 77);
    let _ = m.enqueue(1, 10, meta("a", "https://example/a"));
    // Two members still present: nothing happens.
    assert!(!m.on_member_change(1, 2));
    assert!(m.is_active(1));
    // The bot is the sole remaining member: session and channel
    // properties go away.
    assert!(m.on_member_change(1, 1));
    assert!(!m.is_active(1));
    assert_eq!(m.channel_volume(77), 100);
}

#[test]
fn duplicate_member_change_is_a_no_op() {
    let mut m = PlayerManager::new();
    m.complete_join(1, 77);
    assert!(m.on_member_change(1, 1));
    // The overlapping second firing observes "already torn down".
    assert!(!m.on_member_change(1, 1));
    assert!(!m.is_active(1));
}

#[test]
fn member_change_removes_channel_properties() {
    let mut m = PlayerManager::new();
    m.complete_join(1, 77);
    let _ = m.enqueue(1, 10, meta("a", "https://example/a"));
    let _ = m.set_volume(1, 40);
    assert_eq!(m.channel_volume(77), 40);
    assert!(m.on_member_change(1, 1));
    // The stored setting is gone; the channel is back at the default.
    assert_eq!(m.channel_volume(77), 100);
}

#[test]
fn teardown_keeps_channel_properties() {
    let mut m = PlayerManager::new();
    m.complete_join(1, 77);
    let _ = m.enqueue(1, 10, meta("a", "https://example/a"));
    let _ = m.set_volume(1, 40);
    assert!(m.teardown(1));
    // An explicit stop leaves the channel's stored volume in place.
    assert_eq!(m.channel_volume(77), 40);
}

#[test]
fn distinct_guilds_do_not_interfere() {
    let mut m = PlayerManager::new();
    m.complete_join(1, 77);
    m.complete_join(2, 88);
    let _ = m.enqueue(1, 10, meta("a", "https://example/a"));
    let _ = m.enqueue(2, 20, meta("b", "https://example/b"));
    assert!(m.teardown(1));
    // Guild 2's session and queue are untouched by guild 1's teardown.
    assert!(m.is_active(2));
    let view = m.current_queue_view(2);
    assert_eq!(view.len(), 1);
    assert_eq!(view[0].track, 20);
}
