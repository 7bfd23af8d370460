use msedge_tts::codec::{Frame, ProcessedMessage};
use msedge_tts::stream::{PipeState, SynthesizedResponse};

#[test]
fn second_send_waits_for_drain() {
    let mut latch = PipeState::new();
    assert!(latch.can_send());
    assert!(!latch.can_read());

    // First request goes out; a second send is now blocked.
    latch.mark_sent();
    assert!(!latch.can_send());
    assert!(latch.can_read());

    // Draining frames that do not complete the turn keeps the latch shut.
    let r = latch.on_frame(Frame::Text("Path:turn.start\r\n\r\n{}".to_string())).unwrap();
    assert!(r.is_none());
    assert!(!latch.can_send());
    let r = latch.on_frame(Frame::Text("Path:response\r\n\r\n{}".to_string())).unwrap();
    assert!(r.is_none());
    assert!(!latch.can_send());
    let r = latch.on_frame(Frame::Binary(vec![0x00, 0x01, 0xee, 7, 8])).unwrap();
    match r {
        Some(SynthesizedResponse::AudioBytes(payload)) => assert_eq!(payload, vec![7, 8]),
        other => panic!("expected audio payload, got {:?}", other),
    }
    assert!(!latch.can_send());

    // The frame that completes the turn reopens the latch for the next send.
    let r = latch.on_frame(Frame::Text("Path:turn.end\r\n\r\n{}".to_string())).unwrap();
    assert!(r.is_none());
    assert!(latch.can_send());
    assert!(!latch.can_read());

    // And the flags are reset for the next request.
    latch.mark_sent();
    let r = latch.on_frame(Frame::Binary(vec![0x00, 0x00, 1])).unwrap();
    assert!(r.is_none(), "audio before a new turn.start must be dropped again");
}

#[test]
fn reader_events_carry_metadata() {
    let mut latch = PipeState::new();
    latch.mark_sent();
    let body = "{\"Metadata\":[{\"Type\":\"SentenceBoundary\",\"Data\":{\"Offset\":1,\"Duration\":2,\"text\":{\"Text\":\"x\",\"Length\":1,\"BoundaryType\":\"Sentence\"}}}]}";
    let r = latch.on_frame(Frame::Text(format!("Path:audio.metadata\r\n\r\n{}", body))).unwrap();
    match r {
        Some(SynthesizedResponse::AudioMetadata(events)) => {
            assert_eq!(events.len(), 1);
            assert_eq!(events[0].metadata_type.as_deref(), Some("SentenceBoundary"));
        }
        other => panic!("expected metadata, got {:?}", other),
    }
}

#[test]
fn rejected_frame_keeps_latch_pending() {
    let mut latch = PipeState::new();
    latch.mark_sent();
    let r = latch.on_frame(Frame::Text("garbage".to_string()));
    assert!(r.is_err());
    assert!(latch.can_read());
    assert!(!latch.can_send());
}

#[test]
fn processed_message_conversion_strips_header() {
    let m = ProcessedMessage::AudioBytes((vec![1, 2, 3, 4, 5], 2));
    match SynthesizedResponse::from(m) {
        SynthesizedResponse::AudioBytes(payload) => assert_eq!(payload, vec![3, 4, 5]),
        other => panic!("expected audio, got {:?}", other),
    }
}
