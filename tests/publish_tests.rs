use connect_state::publish::{MemberType, PutStateReason};
use connect_state::request::{GenericCommand, LoggingParams, Request, RequestCommand};
use connect_state::state::{ConnectState, ConnectStateConfig, ProvidedTrack};

fn store() -> ConnectState {
    let mut s = ConnectState::new(
        ConnectStateConfig::default(),
        "device-1".to_string(),
        "client-1".to_string(),
        "0.1.0".to_string(),
    );
    s.player.track = Some(ProvidedTrack { uri: "A".to_string(), uid: "a".to_string(), provider: "context".to_string() });
    s
}

#[test]
fn publish_twice_differs_only_in_timestamp() {
    let mut s = store();
    s.set_active(true, 1_000);
    s.has_been_playing_for = Some(500);
    let a = s.clone().into_put_state(PutStateReason::PlayerStateChanged, 2_000);
    let b = s.clone().into_put_state(PutStateReason::PlayerStateChanged, 3_000);
    assert_eq!(a.client_side_timestamp, 2_000);
    assert_eq!(b.client_side_timestamp, 3_000);
    assert_eq!(a.device.player_state.track.as_ref().unwrap().uri, b.device.player_state.track.as_ref().unwrap().uri);
    assert_eq!(a.device.device_info.device_id, b.device.device_info.device_id);
    assert_eq!(a.is_active, b.is_active);
    assert_eq!(a.started_playing_at, Some(1_000));
    assert_eq!(b.started_playing_at, Some(1_000));
    assert_eq!(a.has_been_playing_for_ms, Some(1_500));
    assert!(a.member_type == MemberType::ConnectState);
}

#[test]
fn publish_echoes_last_command() {
    let mut s = store();
    s.last_command = Some(Request {
        message_id: 42,
        sent_by_device_id: "phone".to_string(),
        command: RequestCommand::Resume(GenericCommand {
            logging_params: LoggingParams {
                interaction_ids: None,
                device_identifier: None,
                command_initiated_time: None,
                page_instance_ids: None,
                command_id: None,
            },
        }),
    });
    let r = s.into_put_state(PutStateReason::NewDevice, 10);
    assert_eq!(r.last_command_message_id, Some(42));
    assert_eq!(r.last_command_sent_by_device_id.as_deref(), Some("phone"));
    assert!(r.put_state_reason == PutStateReason::NewDevice);
}

#[test]
fn publish_became_inactive_and_clock_skew() {
    let mut s = store();
    s.set_active(true, 100);
    s.has_been_playing_for = Some(900);
    let r = s.clone().into_put_state(PutStateReason::BecameInactive, 500);
    assert!(!r.is_active);
    assert!(r.started_playing_at.is_none());
    assert!(r.has_been_playing_for_ms.is_none());
    let r2 = s.into_put_state(PutStateReason::PlayerStateChanged, 500);
    assert!(r2.is_active);
    assert!(r2.has_been_playing_for_ms.is_none());
}
