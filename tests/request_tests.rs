use connect_state::decode::{decode_command, decode_request, parse_request, DecodeError};
use connect_state::json::{member, Json};
use connect_state::request::{endpoint_of, endpoint_tag, unknown_label, Endpoint, RequestCommand};

fn parse(s: &str) -> Json {
    connect_state::json::parse(s.as_bytes()).unwrap()
}

#[test]
fn decode_pause() {
    let v = parse(r#"{"message_id":5,"sent_by_device_id":"dev1","command":{"endpoint":"pause","logging_params":{}}}"#);
    let r = decode_request(v).unwrap();
    assert_eq!(r.message_id, 5);
    assert_eq!(r.sent_by_device_id, "dev1");
    assert!(matches!(r.command, RequestCommand::Pause(_)));
    assert_eq!(r.command.label(), "pause");
}

#[test]
fn decode_unknown_endpoint() {
    let v = parse(r#"{"endpoint":"future_feature","logging_params":{},"x":1}"#);
    let c = decode_command(v);
    match &c {
        RequestCommand::Unknown(raw) => {
            assert!(matches!(member(raw, "x"), Some(Json::UInt(1))));
            assert_eq!(endpoint_tag(raw), Some("future_feature"));
        }
        _ => panic!("expected the raw command"),
    }
    assert_eq!(c.label(), "future_feature");
}

#[test]
fn unknown_without_endpoint_label() {
    let c = decode_command(parse(r#"{"logging_params":{}}"#));
    assert!(matches!(c, RequestCommand::Unknown(_)));
    assert_eq!(c.label(), "???");
    assert_eq!(unknown_label(None), "???");
    assert_eq!(unknown_label(Some("x")), "x");
}

#[test]
fn transfer_without_data_is_none() {
    let v = parse(r#"{"endpoint":"transfer","from_device_identifier":"d2","logging_params":{},
        "options":{"restore_paused":"restore","restore_position":"restore","restore_track":"select","retain_session":"false"}}"#);
    match decode_command(v) {
        RequestCommand::Transfer(t) => {
            assert!(t.data.is_none());
            assert_eq!(t.from_device_identifier, "d2");
            assert_eq!(t.options.restore_track, "select");
        }
        _ => panic!("expected transfer"),
    }
}

#[test]
fn known_endpoint_with_bad_fields_is_unknown() {
    let c = decode_command(parse(r#"{"endpoint":"seek_to","value":"x","position":1,"logging_params":{}}"#));
    assert!(matches!(c, RequestCommand::Unknown(_)));
    assert_eq!(c.label(), "seek_to");
}

#[test]
fn decode_seek_and_shuffle() {
    match decode_command(parse(r#"{"endpoint":"seek_to","value":1500,"position":1500,"logging_params":{"command_id":"c1"}}"#)) {
        RequestCommand::SeekTo(s) => {
            assert_eq!(s.value, 1500);
            assert_eq!(s.logging_params.command_id.as_deref(), Some("c1"));
        }
        _ => panic!("expected seek_to"),
    }
    match decode_command(parse(r#"{"endpoint":"set_shuffling_context","value":true,"logging_params":{}}"#)) {
        RequestCommand::SetShufflingContext(s) => assert!(s.value),
        _ => panic!("expected shuffle"),
    }
}

#[test]
fn decode_queue_commands() {
    match decode_command(parse(r#"{"endpoint":"add_to_queue","track":{"uri":"spotify:track:1","uid":"q1"},"logging_params":{}}"#)) {
        RequestCommand::AddToQueue(a) => {
            assert_eq!(a.track.uri, "spotify:track:1");
            assert_eq!(a.track.provider, "");
        }
        _ => panic!("expected add_to_queue"),
    }
    match decode_command(parse(r#"{"endpoint":"set_queue","next_tracks":[{"uri":"a"},{"uri":"b"}],"prev_tracks":[],"queue_revision":"r7","logging_params":{}}"#)) {
        RequestCommand::SetQueue(q) => {
            assert_eq!(q.next_tracks.len(), 2);
            assert_eq!(q.next_tracks[1].uri, "b");
            assert_eq!(q.queue_revision, "r7");
        }
        _ => panic!("expected set_queue"),
    }
}

#[test]
fn decode_play_and_skip() {
    let v = parse(r#"{"endpoint":"play","context":{"uri":"spotify:album:1"},"play_origin":{"feature_identifier":"x"},
        "options":{"skip_to":{"track_uid":"u","track_uri":"t","track_index":3},"license":"premium"},"logging_params":{}}"#);
    match decode_command(v) {
        RequestCommand::Play(p) => {
            assert_eq!(p.options.skip_to.track_index, 3);
            assert!(p.options.player_option_overrides.is_none());
            assert!(matches!(member(&p.context, "uri"), Some(Json::Str(u)) if u == "spotify:album:1"));
        }
        _ => panic!("expected play"),
    }
    match decode_command(parse(r#"{"endpoint":"skip_next","logging_params":{}}"#)) {
        RequestCommand::SkipNext(s) => assert!(s.track.is_none()),
        _ => panic!("expected skip_next"),
    }
    assert!(matches!(decode_command(parse(r#"{"endpoint":"skip_prev","logging_params":{}}"#)), RequestCommand::SkipPrev(_)));
    assert!(matches!(decode_command(parse(r#"{"endpoint":"resume","logging_params":{}}"#)), RequestCommand::Resume(_)));
}

#[test]
fn endpoint_matching_ignores_case() {
    assert!(endpoint_of("PAUSE") == Some(Endpoint::Pause));
    assert!(endpoint_of("Seek_To") == Some(Endpoint::SeekTo));
    assert!(endpoint_of("pausex").is_none());
    assert_eq!(Endpoint::SetShufflingContext.name(), "set_shuffling_context");
    let c = decode_command(parse(r#"{"endpoint":"Resume","logging_params":{}}"#));
    assert!(matches!(c, RequestCommand::Resume(_)));
    let c = decode_command(parse(r#"{"endpoint":"PAUSE","logging_params":{}}"#));
    assert!(matches!(c, RequestCommand::Pause(_)));
    assert_eq!(c.label(), "pause");
}

#[test]
fn envelope_errors() {
    assert!(decode_request(parse(r#"{"sent_by_device_id":"d","command":{}}"#)).is_none());
    assert!(decode_request(parse(r#"{"message_id":4294967296,"sent_by_device_id":"d","command":{}}"#)).is_none());
    let r = decode_request(parse(r#"{"message_id":1,"sent_by_device_id":"d","command":"pause"}"#)).unwrap();
    assert!(matches!(r.command, RequestCommand::Unknown(Json::Str(_))));
    assert_eq!(r.command.label(), "???");
}

#[test]
fn parse_request_from_text() {
    let r = parse_request(br#"{"message_id":5,"sent_by_device_id":"dev1","command":{"endpoint":"pause","logging_params":{}}}"#).unwrap();
    assert_eq!(r.message_id, 5);
    assert!(matches!(r.command, RequestCommand::Pause(_)));
    assert!(matches!(parse_request(b"{not json"), Err(DecodeError::Json)));
    assert!(matches!(parse_request(br#"{"message_id":1}"#), Err(DecodeError::Envelope)));
}

#[test]
fn missing_fields_keep_raw_command() {
    let c = decode_command(parse(r#"{"endpoint":"seek_to","logging_params":{}}"#));
    assert!(matches!(c, RequestCommand::Unknown(_)));
    assert_eq!(c.label(), "seek_to");
}

#[test]
fn json_numbers_and_text() {
    let v = parse(r#"{"a":-3,"b":2.5,"c":[true,null],"d":"t"}"#);
    assert!(matches!(member(&v, "a"), Some(Json::Int(-3))));
    assert!(matches!(member(&v, "b"), Some(Json::Float(t)) if t == "2.5"));
    assert!(matches!(member(&v, "c"), Some(Json::Array(a)) if a.len() == 2));
    assert!(matches!(member(&v, "d"), Some(Json::Str(t)) if t == "t"));
    assert!(connect_state::json::parse(b"[1,").is_none());
}
