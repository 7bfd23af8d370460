use msedge_tts::codec::{
    build_config_message, build_config_message_with, build_ssml_message, build_ssml_message_with,
    process_message, Frame, ProcessedMessage, TurnState,
};
use msedge_tts::config::SpeechConfig;
use msedge_tts::error::Error;

fn config() -> SpeechConfig {
    SpeechConfig {
        voice_name: "en-US-AriaNeural".to_string(),
        audio_format: "audio-24khz-48kbitrate-mono-mp3".to_string(),
        pitch: 0,
        rate: 0,
        volume: 0,
    }
}

#[test]
fn config_message_exact() {
    let m = build_config_message_with("TS", &config());
    let expected = "X-Timestamp:TS\r\nContent-Type:application/json; charset=utf-8\r\nPath:speech.config\r\n\r\n{\"context\":{\"synthesis\":{\"audio\":{\"metadataoptions\":{\"sentenceBoundaryEnabled\":\"false\",\"wordBoundaryEnabled\":\"true\"},\"outputFormat\":\"audio-24khz-48kbitrate-mono-mp3\"}}}}";
    assert_eq!(m, expected);
}

#[test]
fn ssml_message_exact() {
    let cfg = SpeechConfig {
        voice_name: "en-US-AriaNeural".to_string(),
        audio_format: "audio-24khz-48kbitrate-mono-mp3".to_string(),
        pitch: -1,
        rate: 0,
        volume: 25,
    };
    let m = build_ssml_message_with("RID", "TS", "Hello, world", &cfg);
    let expected = "X-RequestId:RID\r\nContent-Type:application/ssml+xml\r\nX-Timestamp:TS\r\nPath:ssml\r\n\r\n<speak version='1.0' xmlns='http://www.w3.org/2001/10/synthesis' xml:lang='en-US'><voice name='en-US-AriaNeural'><prosody pitch='-1Hz' rate='+0%' volume='+25%'>Hello, world</prosody></voice></speak>";
    assert_eq!(m, expected);
}

#[test]
fn ssml_text_is_verbatim() {
    // XML-unsafe characters pass through unescaped: a deliberate behavior.
    let m = build_ssml_message_with("RID", "TS", "a<b&c>d", &config());
    assert!(match m.find("a<b&c>d") {
        Some(_) => true,
        None => false,
    });
}

#[test]
fn outbound_messages_share_separator_and_path() {
    let cfg = config();
    let config_frame = build_config_message(&cfg);
    let ssml_frame = build_ssml_message("Hello", &cfg);
    let config_text = match config_frame {
        Frame::Text(s) => s,
        _ => panic!("config message is a text frame"),
    };
    let ssml_text = match ssml_frame {
        Frame::Text(s) => s,
        _ => panic!("ssml message is a text frame"),
    };
    // The header block ends with the Path header followed by the separator.
    assert!(config_text.contains("Path:speech.config\r\n\r\n"));
    assert!(ssml_text.contains("Path:ssml\r\n\r\n"));
    // The SSML message carries a fresh 32-hex-character request id.
    let after = &ssml_text["X-RequestId:".len()..];
    let rid = &after[..after.find('\r').unwrap()];
    assert_eq!(rid.len(), 32);
    assert!(rid.chars().all(|c| c.is_ascii_hexdigit() && !c.is_ascii_uppercase()));
    // The timestamps are single-line values.
    let ts_start = config_text.find("X-Timestamp:").unwrap() + "X-Timestamp:".len();
    let ts = &config_text[ts_start..ts_start + config_text[ts_start..].find('\r').unwrap()];
    assert!(!ts.is_empty());
    assert!(ts.is_ascii());
}

#[test]
fn turn_start_is_idempotent() {
    let mut state = TurnState::new();
    let text = "X-RequestId:x\r\nPath:turn.start\r\n\r\n{}";
    let first = process_message(Frame::Text(text.to_string()), &mut state);
    assert!(matches!(first, Ok(None)));
    assert!(state.turn_started);
    let second = process_message(Frame::Text(text.to_string()), &mut state);
    assert!(matches!(second, Ok(None)));
    assert!(state.turn_started);
    assert!(!state.response_seen);
    assert!(!state.turn_ended);
}

#[test]
fn binary_payload_after_turn_start() {
    let mut state = TurnState::new();
    let start = process_message(
        Frame::Text("Path:turn.start\r\n\r\n{}".to_string()),
        &mut state,
    );
    assert!(matches!(start, Ok(None)));
    let bytes = vec![0x00, 0x05, 1, 2, 3, 4, 5, 0xf0, 0xf1, 0xf2];
    let r = process_message(Frame::Binary(bytes.clone()), &mut state);
    match r {
        Ok(Some(ProcessedMessage::AudioBytes((raw, offset)))) => {
            assert_eq!(offset, 7);
            assert_eq!(raw, bytes);
            assert_eq!(&raw[offset..], &[0xf0, 0xf1, 0xf2]);
        }
        other => panic!("expected audio bytes, got {:?}", other),
    }
}

#[test]
fn binary_before_any_marker_is_dropped() {
    let mut state = TurnState::new();
    let r = process_message(Frame::Binary(vec![0x00, 0x01, 9, 9, 9]), &mut state);
    assert!(matches!(r, Ok(None)));
}

#[test]
fn binary_after_response_marker_is_audio() {
    let mut state = TurnState::new();
    let seen = process_message(Frame::Text("Path:response\r\n\r\n{}".to_string()), &mut state);
    assert!(matches!(seen, Ok(None)));
    assert!(state.response_seen);
    let r = process_message(Frame::Binary(vec![0x00, 0x00, 0xaa]), &mut state);
    match r {
        Ok(Some(ProcessedMessage::AudioBytes((raw, offset)))) => {
            assert_eq!(offset, 2);
            assert_eq!(&raw[offset..], &[0xaa]);
        }
        other => panic!("expected audio bytes, got {:?}", other),
    }
}

#[test]
fn binary_shorter_than_header_is_truncated() {
    let mut state = TurnState::new();
    let _ = process_message(Frame::Text("turn.start".to_string()), &mut state);
    let r = process_message(Frame::Binary(vec![0x00, 0x09, 1]), &mut state);
    assert_eq!(r, Err(Error::TruncatedFrame));
    let r = process_message(Frame::Binary(vec![0x01]), &mut state);
    assert_eq!(r, Err(Error::TruncatedFrame));
}

#[test]
fn metadata_frame_yields_events() {
    let mut state = TurnState::new();
    let body = "{\"Metadata\":[{\"Type\":\"WordBoundary\",\"Data\":{\"Offset\":100,\"Duration\":50,\"text\":{\"Text\":\"Hi\",\"Length\":2,\"BoundaryType\":\"Word\"}}}]}";
    let text = format!("X-RequestId:x\r\nPath:audio.metadata\r\n\r\n{}", body);
    let r = process_message(Frame::Text(text), &mut state);
    match r {
        Ok(Some(ProcessedMessage::AudioMetadata(events))) => {
            assert_eq!(events.len(), 1);
            let e = &events[0];
            assert_eq!(e.metadata_type.as_deref(), Some("WordBoundary"));
            assert_eq!(e.offset, 100);
            assert_eq!(e.duration, 50);
            assert_eq!(e.text.as_deref(), Some("Hi"));
            assert_eq!(e.length, 2);
            assert_eq!(e.boundary_type.as_deref(), Some("Word"));
        }
        other => panic!("expected metadata, got {:?}", other),
    }
    // Classifying metadata does not move the turn flags.
    assert!(!state.turn_started && !state.response_seen && !state.turn_ended);
}

#[test]
fn metadata_defaults_for_absent_fields() {
    let mut state = TurnState::new();
    let text = "Path:audio.metadata\r\n\r\n{\"Metadata\":[{}]}";
    let r = process_message(Frame::Text(text.to_string()), &mut state);
    match r {
        Ok(Some(ProcessedMessage::AudioMetadata(events))) => {
            assert_eq!(events.len(), 1);
            let e = &events[0];
            assert_eq!(e.metadata_type, None);
            assert_eq!(e.offset, 0);
            assert_eq!(e.duration, 0);
            assert_eq!(e.text, None);
            assert_eq!(e.length, 0);
            assert_eq!(e.boundary_type, None);
        }
        other => panic!("expected metadata, got {:?}", other),
    }
}

#[test]
fn metadata_without_separator_is_dropped() {
    let mut state = TurnState::new();
    let r = process_message(Frame::Text("audio.metadata but no header end".to_string()), &mut state);
    assert!(matches!(r, Ok(None)));
}

#[test]
fn metadata_with_bad_json_fails() {
    let mut state = TurnState::new();
    let r = process_message(
        Frame::Text("Path:audio.metadata\r\n\r\n{not json".to_string()),
        &mut state,
    );
    assert_eq!(r, Err(Error::MalformedJson));
}

#[test]
fn metadata_without_array_fails() {
    let mut state = TurnState::new();
    let r = process_message(
        Frame::Text("Path:audio.metadata\r\n\r\n{\"Metadata\":5}".to_string()),
        &mut state,
    );
    assert_eq!(r, Err(Error::UnexpectedShape));
}

#[test]
fn unknown_text_frame_fails_with_raw_text() {
    let mut state = TurnState::new();
    let r = process_message(Frame::Text("something else".to_string()), &mut state);
    assert_eq!(r, Err(Error::UnexpectedMessage("something else".to_string())));
}

#[test]
fn close_frame_ends_turn() {
    let mut state = TurnState::new();
    let r = process_message(Frame::Close, &mut state);
    assert!(matches!(r, Ok(None)));
    assert!(state.turn_ended);
}

#[test]
fn other_frame_kind_fails() {
    let mut state = TurnState::new();
    let r = process_message(Frame::Other("ping".to_string()), &mut state);
    assert_eq!(r, Err(Error::UnexpectedMessage("ping".to_string())));
}

#[test]
fn metadata_from_str_directly() {
    let events =
        msedge_tts::metadata::AudioMetadata::from_str("{\"Metadata\":[]}").expect("valid body");
    assert!(events.is_empty());
    let err = msedge_tts::metadata::AudioMetadata::from_str("[1,2]");
    assert_eq!(err.unwrap_err(), Error::UnexpectedShape);
}
