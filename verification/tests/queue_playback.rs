//! Queue operations: enqueue, the queue projection, skip, pause and
//! resume, looping, volume, and the track-end notifier.

use destiny::manager::PlayerManager;
use destiny::track::{LoopAction, LoopMode, TrackMetadata};
use destiny::PlayerError;

fn meta(title: &str, url: &str) -> TrackMetadata {
    TrackMetadata {
        title: Some(title.to_string()),
        source_url: Some(url.to_string()),
        duration_secs: None,
    }
}

#[test]
fn enqueue_is_visible_with_real_metadata() {
    let mut m = PlayerManager::new();
    m.complete_join(1, 77);
    let r = m.enqueue(1, 10, meta("track1", "https://example/track1")).unwrap();
    assert_eq!(r.position, 0);
    assert!(r.starts_now);
    assert_eq!(r.volume, 100);
    let view = m.current_queue_view(1);
    assert_eq!(view.len(), 1);
    assert_eq!(view[0].track, 10);
    assert!(view[0].now_playing);
    // The entry carries the metadata that was written, not a placeholder.
    assert_eq!(view[0].metadata.title.as_deref(), Some("track1"));
    assert_eq!(view[0].metadata.source_url.as_deref(), Some("https://example/track1"));
}

#[test]
fn enqueue_behind_a_playing_track_waits() {
    let mut m = PlayerManager::new();
    m.complete_join(1, 77);
    let _ = m.enqueue(1, 10, meta("track1", "https://example/track1"));
    let r = m.enqueue(1, 11, meta("track2", "https://example/track2")).unwrap();
    assert_eq!(r.position, 1);
    assert!(!r.starts_now);
    let view = m.current_queue_view(1);
    assert_eq!(view.len(), 2);
    assert!(view[0].now_playing);
    assert!(!view[1].now_playing);
    assert_eq!(view[1].track, 11);
}

#[test]
fn enqueue_after_teardown_discards_the_track() {
    let mut m = PlayerManager::new();
    m.complete_join(1, 77);
    m.teardown(1);
    // A resolve that finishes after the session is gone must not revive it.
    let r = m.enqueue(1, 10, meta("late", "https://example/late"));
    assert_eq!(r, Err(PlayerError::NotInVoiceChannel));
    assert!(!m.is_active(1));
    assert!(m.metadata_of(10).is_none());
}

#[test]
fn enqueue_applies_the_stored_volume() {
    let mut m = PlayerManager::new();
    m.complete_join(1, 77);
    let _ = m.enqueue(1, 10, meta("a", "https://example/a"));
    let _ = m.set_volume(1, 55);
    let r = m.enqueue(1, 11, meta("b", "https://example/b")).unwrap();
    assert_eq!(r.volume, 55);
}

#[test]
fn skip_advances_the_queue() {
    let mut m = PlayerManager::new();
    m.complete_join(1, 77);
    let _ = m.enqueue(1, 10, meta("track1", "https://example/track1"));
    let _ = m.enqueue(1, 11, meta("track2", "https://example/track2"));
    let r = m.skip(1).unwrap();
    assert_eq!(r.ended, 10);
    assert_eq!(r.next, Some(11));
    let view = m.current_queue_view(1);
    assert_eq!(view.len(), 1);
    assert_eq!(view[0].track, 11);
    assert!(view[0].now_playing);
    // The engine then reports the skipped track's end; its metadata
    // entry leaves the cache.
    m.on_track_end(1, &vec![10]);
    assert!(m.metadata_of(10).is_none());
    assert!(m.metadata_of(11).is_some());
}

#[test]
fn skip_on_a_single_track_empties_the_queue() {
    let mut m = PlayerManager::new();
    m.complete_join(1, 77);
    let _ = m.enqueue(1, 10, meta("only", "https://example/only"));
    let r = m.skip(1).unwrap();
    assert_eq!(r.ended, 10);
    assert_eq!(r.next, None);
    // Queue length 0 means the projection is the empty sequence.
    assert!(m.current_queue_view(1).is_empty());
}

#[test]
fn skip_on_an_empty_queue_is_refused() {
    let mut m = PlayerManager::new();
    m.complete_join(1, 77);
    assert_eq!(m.skip(1), Err(PlayerError::EmptyQueue));
    let mut n = PlayerManager::new();
    assert_eq!(n.skip(1), Err(PlayerError::NotInVoiceChannel));
}

#[test]
fn pause_and_resume_report_their_state() {
    let mut m = PlayerManager::new();
    m.complete_join(1, 77);
    assert_eq!(m.pause(1), Ok(()));
    assert_eq!(m.pause(1), Err(PlayerError::InvalidState));
    assert_eq!(m.resume(1), Ok(()));
    assert_eq!(m.resume(1), Err(PlayerError::InvalidState));
    let mut n = PlayerManager::new();
    assert_eq!(n.pause(1), Err(PlayerError::NotInVoiceChannel));
    assert_eq!(n.resume(1), Err(PlayerError::NotInVoiceChannel));
}

#[test]
fn loop_requests_name_the_current_track() {
    let mut m = PlayerManager::new();
    m.complete_join(1, 77);
    assert_eq!(m.set_loop(1, None), Err(PlayerError::EmptyQueue));
    let _ = m.enqueue(1, 10, meta("a", "https://example/a"));
    assert_eq!(
        m.set_loop(1, None),
        Ok(LoopAction { track: 10, mode: LoopMode::Infinite })
    );
    assert_eq!(
        m.set_loop(1, Some(0)),
        Ok(LoopAction { track: 10, mode: LoopMode::Infinite })
    );
    assert_eq!(
        m.set_loop(1, Some(3)),
        Ok(LoopAction { track: 10, mode: LoopMode::Count(3) })
    );
    assert_eq!(m.clear_loop(1), Ok(10));
    let n = PlayerManager::new();
    assert_eq!(n.set_loop(1, None), Err(PlayerError::NotInVoiceChannel));
    assert_eq!(n.clear_loop(1), Err(PlayerError::NotInVoiceChannel));
}

#[test]
fn volume_bounds_are_enforced() {
    let mut m = PlayerManager::new();
    m.complete_join(1, 77);
    let _ = m.enqueue(1, 10, meta("a", "https://example/a"));
    let _ = m.set_volume(1, 60);
    // Out-of-range values are rejected and the prior volume stays.
    assert_eq!(m.set_volume(1, 101), Err(PlayerError::InvalidVolume));
    assert_eq!(m.set_volume(1, -1), Err(PlayerError::InvalidVolume));
    assert_eq!(m.channel_volume(77), 60);
    // The boundaries themselves are valid.
    let lo = m.set_volume(1, 0).unwrap();
    assert_eq!(lo.volume, 0);
    assert_eq!(m.channel_volume(77), 0);
    let hi = m.set_volume(1, 100).unwrap();
    assert_eq!(hi.volume, 100);
    assert_eq!(hi.track, 10);
    assert_eq!(m.channel_volume(77), 100);
}

#[test]
fn volume_needs_a_session_and_a_track() {
    let mut n = PlayerManager::new();
    assert_eq!(n.set_volume(1, 50), Err(PlayerError::NotInVoiceChannel));
    n.complete_join(1, 77);
    assert_eq!(n.set_volume(1, 50), Err(PlayerError::EmptyQueue));
}

#[test]
fn duplicate_track_end_removes_exactly_once() {
    let mut m = PlayerManager::new();
    m.complete_join(1, 77);
    let _ = m.enqueue(1, 10, meta("a", "https://example/a"));
    assert!(m.metadata_of(10).is_some());
    m.on_track_end(1, &vec![10]);
    assert!(m.metadata_of(10).is_none());
    assert!(m.current_queue_view(1).is_empty());
    // The duplicate callback finds nothing left and surfaces no error.
    m.on_track_end(1, &vec![10]);
    assert!(m.metadata_of(10).is_none());
    assert!(m.current_queue_view(1).is_empty());
}

#[test]
fn batched_track_end_removes_each_independently() {
    let mut m = PlayerManager::new();
    m.complete_join(1, 77);
    let _ = m.enqueue(1, 10, meta("a", "https://example/a"));
    let _ = m.enqueue(1, 11, meta("b", "https://example/b"));
    let _ = m.enqueue(1, 12, meta("c", "https://example/c"));
    // A batch with one already-absent identifier still removes the rest,
    // and a duplicate inside the batch is harmless.
    m.on_track_end(1, &vec![10, 99, 12, 12]);
    assert!(m.metadata_of(10).is_none());
    assert!(m.metadata_of(12).is_none());
    let view = m.current_queue_view(1);
    assert_eq!(view.len(), 1);
    assert_eq!(view[0].track, 11);
    assert!(view[0].now_playing);
}

#[test]
fn full_session_scenario() {
    // Join guild 1 with the user in channel 77, play two tracks, skip.
    let mut m = PlayerManager::new();
    assert_eq!(m.join_plan(1, Some(77)).unwrap(), destiny::track::JoinPlan::Connect(77));
    m.complete_join(1, 77);
    let r1 = m.enqueue(1, 10, meta("track1", "https://example/track1")).unwrap();
    assert!(r1.starts_now);
    let view = m.current_queue_view(1);
    assert_eq!(view.len(), 1);
    assert!(view[0].now_playing);
    assert_eq!(view[0].metadata.title.as_deref(), Some("track1"));
    let r2 = m.enqueue(1, 11, meta("track2", "https://example/track2")).unwrap();
    assert!(!r2.starts_now);
    assert_eq!(m.current_queue_view(1).len(), 2);
    let s = m.skip(1).unwrap();
    assert_eq!(s.ended, 10);
    assert_eq!(s.next, Some(11));
    m.on_track_end(1, &vec![10]);
    let view = m.current_queue_view(1);
    assert_eq!(view.len(), 1);
    assert_eq!(view[0].track, 11);
    assert!(view[0].now_playing);
    assert!(m.metadata_of(10).is_none());
}
