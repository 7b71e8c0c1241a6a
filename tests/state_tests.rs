use connect_state::state::{
    ConnectState, ConnectStateConfig, ConnectStateError, ContextIndex, PlayStatus, ProvidedTrack,
    QueuedTrack,
};

fn track(uri: &str) -> ProvidedTrack {
    ProvidedTrack { uri: uri.to_string(), uid: format!("uid-{uri}"), provider: "context".to_string() }
}

fn fresh() -> ConnectState {
    ConnectState::new(
        ConnectStateConfig::default(),
        "device-1".to_string(),
        "client-1".to_string(),
        "0.1.0".to_string(),
    )
}

#[test]
fn new_state_is_idle() {
    let s = fresh();
    assert!(!s.active);
    assert!(s.active_since.is_none());
    assert!(s.player.track.is_none());
    assert!(!s.player.is_playing && !s.player.is_paused && !s.player.is_buffering);
    assert!(s.player.is_system_initiated);
    assert_eq!(s.device.volume, 32767);
    assert_eq!(s.device.name, "librespot");
    assert_eq!(s.device.device_id, "device-1");
    assert_eq!(s.device.spirc_version, "3.2.6");
    assert_eq!(s.device.capabilities.volume_steps, 64);
    assert_eq!(s.device.capabilities.supported_types, vec!["audio/episode", "audio/track"]);
}

#[test]
fn history_never_exceeds_ten() {
    let mut s = fresh();
    s.player.track = Some(track("t0"));
    for i in 1..=12 {
        s.player.next_tracks.push(track(&format!("t{i}")));
    }
    for _ in 0..10 {
        s.next_playing_track().unwrap();
    }
    assert_eq!(s.player.prev_tracks.len(), 10);
    assert_eq!(s.player.prev_tracks[0].uri, "t0");
    s.next_playing_track().unwrap();
    assert_eq!(s.player.prev_tracks.len(), 10);
    assert_eq!(s.player.prev_tracks[0].uri, "t1");
    assert_eq!(s.player.prev_tracks[9].uri, "t10");
}

#[test]
fn context_advancement_is_fifo() {
    let mut s = fresh();
    s.player.track = Some(track("current"));
    for u in ["A", "B", "C"] {
        s.player.next_tracks.push(track(u));
    }
    assert_eq!(s.next_playing_track().unwrap().uri, "A");
    assert_eq!(s.next_playing_track().unwrap().uri, "B");
    assert_eq!(s.next_playing_track().unwrap().uri, "C");
    assert!(matches!(s.next_playing_track(), Err(ConnectStateError::NoNextTrack)));
    assert_eq!(s.player.track.as_ref().unwrap().uri, "C");
}

#[test]
fn queue_advancement_is_lifo() {
    let mut s = fresh();
    s.player.track = Some(track("current"));
    s.player.next_tracks.push(track("ctx"));
    s.queue.is_playing_queue = true;
    s.queue.tracks.push(QueuedTrack { uri: "X".to_string(), uid: "x".to_string() });
    s.queue.tracks.push(QueuedTrack { uri: "Y".to_string(), uid: "y".to_string() });
    let first = s.next_playing_track().unwrap();
    assert_eq!(first.uri, "Y");
    assert_eq!(first.provider, "queue");
    assert_eq!(s.next_playing_track().unwrap().uri, "X");
    assert!(s.player.prev_tracks.is_empty());
    assert_eq!(s.next_playing_track().unwrap().uri, "ctx");
    assert_eq!(s.player.prev_tracks.len(), 1);
    assert_eq!(s.player.prev_tracks[0].uri, "X");
}

#[test]
fn advance_without_current_track_fails() {
    let mut s = fresh();
    s.player.next_tracks.push(track("A"));
    assert!(matches!(s.next_playing_track(), Err(ConnectStateError::NoCurrentTrack)));
    assert_eq!(s.player.next_tracks.len(), 1);
}

#[test]
fn previous_track_round_trip() {
    let mut s = fresh();
    assert!(matches!(s.prev_track(), Err(ConnectStateError::NoPreviousTrack)));
    s.player.track = Some(track("A"));
    s.player.next_tracks.push(track("B"));
    s.next_playing_track().unwrap();
    assert_eq!(s.prev_track().unwrap().uri, "A");
    assert_eq!(s.player.next_tracks[0].uri, "B");
    assert!(s.player.prev_tracks.is_empty());
}

#[test]
fn set_active_twice_keeps_since() {
    let mut s = fresh();
    s.set_active(true, 1000);
    assert_eq!(s.active_since, Some(1000));
    s.set_active(true, 2000);
    assert!(s.active);
    assert_eq!(s.active_since, Some(1000));
    s.set_active(false, 3000);
    assert!(!s.active);
    assert!(s.active_since.is_none());
    s.set_active(false, 4000);
    assert!(s.active_since.is_none());
}

#[test]
fn status_table() {
    let mut s = fresh();
    let cases = [
        (PlayStatus::Stopped, false, true, false),
        (PlayStatus::Paused, false, true, false),
        (PlayStatus::LoadingPause, false, true, true),
        (PlayStatus::LoadingPlay, true, false, true),
        (PlayStatus::Playing, true, false, false),
    ];
    for (st, playing, paused, buffering) in cases {
        s.set_status(&st);
        assert_eq!((s.player.is_playing, s.player.is_paused, s.player.is_buffering), (playing, paused, buffering));
    }
}

#[test]
fn options_setters() {
    let mut s = fresh();
    s.set_shuffle(true);
    s.set_repeat_context(true);
    s.set_repeat_track(true);
    let o = s.player.options.unwrap();
    assert!(o.shuffling_context && o.repeating_context && o.repeating_track);
    s.player.options = None;
    s.set_shuffle(false);
    assert!(s.player.options.is_none());
}

#[test]
fn playing_track_index() {
    let mut s = fresh();
    s.set_playing_track_index(4);
    assert!(s.player.index.is_none());
    s.player.index = Some(ContextIndex { page: 2, track: 0 });
    s.set_playing_track_index(4);
    assert_eq!(s.player.index.unwrap().track, 4);
    assert_eq!(s.player.index.unwrap().page, 2);
}

#[test]
fn reset_returns_to_idle() {
    let mut s = fresh();
    s.set_active(true, 5);
    s.player.track = Some(track("A"));
    s.set_status(&PlayStatus::Playing);
    s.reset();
    assert!(!s.active && s.active_since.is_none());
    assert!(s.player.track.is_none() && !s.player.is_playing);
}

#[test]
fn error_messages() {
    assert_eq!(ConnectStateError::NoNextTrack.message(), "no next track");
}
