use msedge_tts::codec::Frame;
use msedge_tts::error::Error;
use msedge_tts::session::SynthesisTurn;

#[test]
fn session_keeps_frame_order() {
    let mut turn = SynthesisTurn::new();
    assert!(!turn.is_done());

    turn.feed(Frame::Text("Path:turn.start\r\n\r\n{}".to_string())).unwrap();
    // Chunk A: header length 2, payload [10, 11].
    turn.feed(Frame::Binary(vec![0x00, 0x02, 0xee, 0xee, 10, 11])).unwrap();
    let body = "{\"Metadata\":[{\"Type\":\"WordBoundary\",\"Data\":{\"Offset\":7,\"Duration\":3,\"text\":{\"Text\":\"A\",\"Length\":1,\"BoundaryType\":\"Word\"}}}]}";
    turn.feed(Frame::Text(format!("Path:audio.metadata\r\n\r\n{}", body))).unwrap();
    // Chunk B: header length 0, payload [20, 21, 22].
    turn.feed(Frame::Binary(vec![0x00, 0x00, 20, 21, 22])).unwrap();
    assert!(!turn.is_done());
    turn.feed(Frame::Text("Path:turn.end\r\n\r\n{}".to_string())).unwrap();
    assert!(turn.is_done());

    let audio = turn.finish("fmt".to_string());
    assert_eq!(audio.audio_format, "fmt");
    assert_eq!(audio.audio_bytes, vec![10, 11, 20, 21, 22]);
    assert_eq!(audio.audio_metadata.len(), 1);
    assert_eq!(audio.audio_metadata[0].metadata_type.as_deref(), Some("WordBoundary"));
    assert_eq!(audio.audio_metadata[0].offset, 7);
}

#[test]
fn empty_session_finishes_empty() {
    let turn = SynthesisTurn::new();
    let audio = turn.finish("f".to_string());
    assert!(audio.audio_bytes.is_empty());
    assert!(audio.audio_metadata.is_empty());
    assert_eq!(audio.audio_format, "f");
}

#[test]
fn rejected_frame_leaves_turn_untouched() {
    let mut turn = SynthesisTurn::new();
    turn.feed(Frame::Text("Path:turn.start\r\n\r\n{}".to_string())).unwrap();
    turn.feed(Frame::Binary(vec![0x00, 0x00, 1, 2])).unwrap();
    let err = turn.feed(Frame::Text("garbage".to_string()));
    assert_eq!(err, Err(Error::UnexpectedMessage("garbage".to_string())));
    // The chunk fed before the error is still there.
    let audio = turn.finish("f".to_string());
    assert_eq!(audio.audio_bytes, vec![1, 2]);
}

#[test]
fn close_frame_also_ends_session() {
    let mut turn = SynthesisTurn::new();
    turn.feed(Frame::Text("Path:response\r\n\r\n{}".to_string())).unwrap();
    turn.feed(Frame::Close).unwrap();
    assert!(turn.is_done());
}
