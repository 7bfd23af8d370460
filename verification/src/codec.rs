//! The protocol codec: building the two outbound request messages and
//! classifying inbound frames against the turn state machine.
//!
//! Classification follows the service's de facto discrimination rule — an
//! ordered sequence of substring checks on the raw frame text — because no
//! stricter schema is published: `audio.metadata` first, then `turn.start`,
//! `response` and `turn.end`, in that priority order.

use vstd::prelude::*;
use crate::error::Error;
use crate::config::SpeechConfig;
use crate::metadata::{AudioMetadata, AudioMetadataView, MetadataParse, metadata_parse};
use crate::text::{
    contains_seq, contains_substring, find_first, find_substring, is_first_match,
    lemma_find_first_agrees, plus_signed_rep, append_plus_signed, single_line,
};

verus! {

/// The per-request turn flags. Binary frames only count as audio once a
/// `turn.start` or `response` marker was seen; `turn.end` is the sole
/// termination signal.
#[derive(Debug, Clone, Copy, PartialEq, Eq, Structural)]
pub struct TurnState {
    pub turn_started: bool,
    pub response_seen: bool,
    pub turn_ended: bool,
}

/// The all-false turn state that every request starts from.
pub open spec fn fresh_turn() -> TurnState {
    TurnState { turn_started: false, response_seen: false, turn_ended: false }
}

impl TurnState {
    /// A fresh turn state with no marker seen yet.
    pub fn new() -> (r: TurnState)
        ensures
            r == fresh_turn(),
    {
        TurnState { turn_started: false, response_seen: false, turn_ended: false }
    }

    /// All three markers have been seen: the request is complete.
    pub open spec fn complete(self) -> bool {
        self.turn_started && self.response_seen && self.turn_ended
    }
}

/// One inbound frame, as the transport layer hands it over: a text frame, a
/// binary frame, a connection-close frame, or any other frame kind (with a
/// description of it, for the error it provokes).
#[derive(Debug)]
pub enum Frame {
    Text(String),
    Binary(Vec<u8>),
    Close,
    Other(String),
}

/// Mathematical image of a [`Frame`].
pub enum FrameView {
    Text(Seq<char>),
    Binary(Seq<u8>),
    Close,
    Other(Seq<char>),
}

impl View for Frame {
    type V = FrameView;

    open spec fn view(&self) -> FrameView {
        match self {
            Frame::Text(t) => FrameView::Text(t@),
            Frame::Binary(b) => FrameView::Binary(b@),
            Frame::Close => FrameView::Close,
            Frame::Other(d) => FrameView::Other(d@),
        }
    }
}

/// What classification extracts from one frame: a raw binary frame together
/// with the offset where its audio payload starts, or a list of metadata
/// events.
#[derive(Debug, PartialEq, Eq)]
pub enum ProcessedMessage {
    AudioBytes((Vec<u8>, usize)),
    AudioMetadata(Vec<AudioMetadata>),
}

/// The header length claimed by the first two bytes of a binary frame,
/// big-endian.
pub open spec fn binary_header_len(b: Seq<u8>) -> int {
    b[0] * 256 + b[1]
}

/// The turn state after classifying one frame: text frames set the flag
/// their marker names (under the priority order), a close frame ends the
/// turn, everything else leaves the state alone.
pub open spec fn next_turn_state(st: TurnState, frame: FrameView) -> TurnState {
    match frame {
        FrameView::Text(t) => {
            if contains_seq(t, "audio.metadata"@) {
                st
            } else if contains_seq(t, "turn.start"@) {
                TurnState { turn_started: true, ..st }
            } else if contains_seq(t, "response"@) {
                TurnState { response_seen: true, ..st }
            } else if contains_seq(t, "turn.end"@) {
                TurnState { turn_ended: true, ..st }
            } else {
                st
            }
        },
        FrameView::Binary(_) => st,
        FrameView::Close => TurnState { turn_ended: true, ..st },
        FrameView::Other(_) => st,
    }
}

/// Why a frame is rejected.
pub enum RejectReason {
    MalformedJson,
    UnexpectedShape,
    Truncated,
    Unexpected(Seq<char>),
}

/// What classifying one frame yields: nothing (a dropped or marker-only
/// frame), metadata events, an audio frame with its payload offset, or a
/// rejection.
pub enum ClassifyOutcome {
    Dropped,
    Metadata(Seq<AudioMetadataView>),
    Audio(Seq<u8>, int),
    Rejected(RejectReason),
}

/// Full classification of one frame against the current turn state.
pub open spec fn classify_spec(st: TurnState, frame: FrameView) -> ClassifyOutcome {
    match frame {
        FrameView::Text(t) => {
            if contains_seq(t, "audio.metadata"@) {
                match find_first(t, "\r\n\r\n"@) {
                    Some(i) => {
                        let body = t.subrange(i + 4, t.len() as int);
                        match metadata_parse(body) {
                            MetadataParse::Events(evs) => ClassifyOutcome::Metadata(evs),
                            MetadataParse::NotJson => ClassifyOutcome::Rejected(
                                RejectReason::MalformedJson,
                            ),
                            MetadataParse::NoArray => ClassifyOutcome::Rejected(
                                RejectReason::UnexpectedShape,
                            ),
                        }
                    },
                    None => ClassifyOutcome::Dropped,
                }
            } else if contains_seq(t, "turn.start"@) {
                ClassifyOutcome::Dropped
            } else if contains_seq(t, "response"@) {
                ClassifyOutcome::Dropped
            } else if contains_seq(t, "turn.end"@) {
                ClassifyOutcome::Dropped
            } else {
                ClassifyOutcome::Rejected(RejectReason::Unexpected(t))
            }
        },
        FrameView::Binary(b) => {
            if st.turn_started || st.response_seen {
                if b.len() >= 2 && binary_header_len(b) + 2 <= b.len() {
                    ClassifyOutcome::Audio(b, binary_header_len(b) + 2)
                } else {
                    ClassifyOutcome::Rejected(RejectReason::Truncated)
                }
            } else {
                ClassifyOutcome::Dropped
            }
        },
        FrameView::Close => ClassifyOutcome::Dropped,
        FrameView::Other(d) => ClassifyOutcome::Rejected(RejectReason::Unexpected(d)),
    }
}

/// How an executable classification result realizes a [`ClassifyOutcome`].
pub open spec fn result_matches(
    r: Result<Option<ProcessedMessage>, Error>,
    o: ClassifyOutcome,
) -> bool {
    match o {
        ClassifyOutcome::Dropped => r == Ok::<Option<ProcessedMessage>, Error>(None),
        ClassifyOutcome::Metadata(evs) => r matches Ok(Some(ProcessedMessage::AudioMetadata(v)))
            && v.deep_view() == evs,
        ClassifyOutcome::Audio(b, off) => r matches Ok(
            Some(ProcessedMessage::AudioBytes((bytes, offset))),
        ) && bytes@ == b && offset == off,
        ClassifyOutcome::Rejected(reason) => match reason {
            RejectReason::MalformedJson => r == Err::<Option<ProcessedMessage>, Error>(
                Error::MalformedJson,
            ),
            RejectReason::UnexpectedShape => r == Err::<Option<ProcessedMessage>, Error>(
                Error::UnexpectedShape,
            ),
            RejectReason::Truncated => r == Err::<Option<ProcessedMessage>, Error>(
                Error::TruncatedFrame,
            ),
            RejectReason::Unexpected(t) => r matches Err(Error::UnexpectedMessage(m)) && m@ == t,
        },
    }
}

/// Classify one inbound frame, updating the turn state.
///
/// Text frames are discriminated by substring, in priority order. A metadata
/// frame without a `\r\n\r\n` header separator is silently dropped; one with
/// a separator has the remainder decoded as JSON. Binary frames before any
/// `turn.start` or `response` marker are dropped; afterwards the two-byte
/// big-endian header length names the payload offset, and a frame shorter
/// than its own header claims is a protocol violation.
pub fn process_message(frame: Frame, state: &mut TurnState) -> (r: Result<
    Option<ProcessedMessage>,
    Error,
>)
    ensures
        *final(state) == next_turn_state(*old(state), frame@),
        result_matches(r, classify_spec(*old(state), frame@)),
{
    match frame {
        Frame::Text(t) => {
            if contains_substring(t.as_str(), "audio.metadata") {
                match find_substring(t.as_str(), "\r\n\r\n") {
                    Some(i) => {
                        proof {
                            reveal_strlit("\r\n\r\n");
                            lemma_find_first_agrees(t@, "\r\n\r\n"@, i as int);
                        }
                        let len = t.as_str().unicode_len();
                        let body = t.as_str().substring_char(i + 4, len);
                        match AudioMetadata::from_str(body) {
                            Ok(events) => Ok(Some(ProcessedMessage::AudioMetadata(events))),
                            Err(e) => Err(e),
                        }
                    },
                    None => Ok(None),
                }
            } else if contains_substring(t.as_str(), "turn.start") {
                state.turn_started = true;
                Ok(None)
            } else if contains_substring(t.as_str(), "response") {
                state.response_seen = true;
                Ok(None)
            } else if contains_substring(t.as_str(), "turn.end") {
                state.turn_ended = true;
                Ok(None)
            } else {
                Err(Error::UnexpectedMessage(t))
            }
        },
        Frame::Binary(b) => {
            if state.turn_started || state.response_seen {
                if b.len() < 2 {
                    return Err(Error::TruncatedFrame);
                }
                let header_len: usize = (b[0] as usize) * 256 + (b[1] as usize);
                let offset = header_len + 2;
                if offset <= b.len() {
                    Ok(Some(ProcessedMessage::AudioBytes((b, offset))))
                } else {
                    Err(Error::TruncatedFrame)
                }
            } else {
                Ok(None)
            }
        },
        Frame::Close => {
            state.turn_ended = true;
            Ok(None)
        },
        Frame::Other(d) => Err(Error::UnexpectedMessage(d)),
    }
}

/// Classifying a non-terminal marker frame is idempotent: a `turn.start`
/// frame (that is not a metadata frame) sets `turn_started` and never errors,
/// and repeating it changes nothing further.
pub proof fn lemma_turn_start_idempotent(st: TurnState, t: Seq<char>)
    requires
        !contains_seq(t, "audio.metadata"@),
        contains_seq(t, "turn.start"@),
    ensures
        ({
            let st1 = next_turn_state(st, FrameView::Text(t));
            &&& st1.turn_started
            &&& next_turn_state(st1, FrameView::Text(t)) == st1
            &&& classify_spec(st, FrameView::Text(t)) == ClassifyOutcome::Dropped
            &&& classify_spec(st1, FrameView::Text(t)) == ClassifyOutcome::Dropped
        }),
{
}

/// The header block of the configuration message; `Path` is its last header.
pub open spec fn config_header_view(ts: Seq<char>) -> Seq<char> {
    "X-Timestamp:"@ + ts + "\r\nContent-Type:application/json; charset=utf-8\r\n"@
        + "Path:speech.config"@
}

/// The JSON body of the configuration message, with the audio output format
/// spliced in.
pub open spec fn config_body_view(fmt: Seq<char>) -> Seq<char> {
    "{\"context\":{\"synthesis\":{\"audio\":{\"metadataoptions\":{\"sentenceBoundaryEnabled\":\"false\",\"wordBoundaryEnabled\":\"true\"},\"outputFormat\":\""@
        + fmt + "\"}}}}"@
}

/// The whole configuration message: header block, the `\r\n\r\n` separator,
/// then the body.
pub open spec fn config_message_view(ts: Seq<char>, fmt: Seq<char>) -> Seq<char> {
    config_header_view(ts) + "\r\n\r\n"@ + config_body_view(fmt)
}

/// The header block of the SSML message; `Path` is its last header.
pub open spec fn ssml_header_view(rid: Seq<char>, ts: Seq<char>) -> Seq<char> {
    "X-RequestId:"@ + rid + "\r\nContent-Type:application/ssml+xml\r\nX-Timestamp:"@ + ts
        + "\r\n"@ + "Path:ssml"@
}

/// The SSML document: the caller's text is interpolated verbatim, with no
/// XML escaping — a deliberate pass-through behavior of this protocol layer.
pub open spec fn ssml_body_view(text: Seq<char>, config: SpeechConfig) -> Seq<char> {
    "<speak version='1.0' xmlns='http://www.w3.org/2001/10/synthesis' xml:lang='en-US'><voice name='"@
        + config.voice_name@ + "'><prosody pitch='"@ + plus_signed_rep(config.pitch as int)
        + "Hz' rate='"@ + plus_signed_rep(config.rate as int) + "%' volume='"@
        + plus_signed_rep(config.volume as int) + "%'>"@ + text + "</prosody></voice></speak>"@
}

/// The whole SSML message: header block, the `\r\n\r\n` separator, then the
/// SSML document.
pub open spec fn ssml_message_view(
    rid: Seq<char>,
    ts: Seq<char>,
    text: Seq<char>,
    config: SpeechConfig,
) -> Seq<char> {
    ssml_header_view(rid, ts) + "\r\n\r\n"@ + ssml_body_view(text, config)
}

/// Relies on chrono's `Local::now().to_rfc2822()`: the current local time in
/// RFC 2822 form (`Tue, 1 Jul 2003 10:52:37 +0200`) — a single line of
/// weekday and month names, digits, spaces, colons and a signed offset, so
/// never a carriage return or line feed.
#[verifier::external_body]
fn now_rfc2822() -> (r: String)
    ensures
        single_line(r@),
{
    chrono::Local::now().to_rfc2822()
}

/// Relies on `uuid::Uuid::new_v4().simple()`: a fresh random identifier
/// rendered as exactly 32 lower-case hexadecimal characters. The value is
/// random, so only its shape is stated.
#[verifier::external_body]
pub(crate) fn new_request_id() -> (r: String)
    ensures
        r@.len() == 32,
        forall|i: int| 0 <= i < r@.len() ==> (48 <= #[trigger] r@[i] as int <= 57) || (97 <= r@[i]
            as int <= 102),
        single_line(r@),
{
    uuid::Uuid::new_v4().simple().to_string()
}

/// Build the configuration message text for a given timestamp.
pub fn build_config_message_with(timestamp: &str, config: &SpeechConfig) -> (m: String)
    ensures
        m@ == config_message_view(timestamp@, config.audio_format@),
{
    let mut m = String::new();
    m.append("X-Timestamp:");
    m.append(timestamp);
    m.append("\r\nContent-Type:application/json; charset=utf-8\r\n");
    m.append("Path:speech.config");
    m.append("\r\n\r\n");
    m.append("{\"context\":{\"synthesis\":{\"audio\":{\"metadataoptions\":{\"sentenceBoundaryEnabled\":\"false\",\"wordBoundaryEnabled\":\"true\"},\"outputFormat\":\"");
    m.append(config.audio_format.as_str());
    m.append("\"}}}}");
    assert(m@ =~= config_message_view(timestamp@, config.audio_format@));
    m
}

/// Build the SSML message text for a given request identifier and timestamp.
pub fn build_ssml_message_with(
    request_id: &str,
    timestamp: &str,
    text: &str,
    config: &SpeechConfig,
) -> (m: String)
    ensures
        m@ == ssml_message_view(request_id@, timestamp@, text@, *config),
{
    let mut m = String::new();
    m.append("X-RequestId:");
    m.append(request_id);
    m.append("\r\nContent-Type:application/ssml+xml\r\nX-Timestamp:");
    m.append(timestamp);
    m.append("\r\n");
    m.append("Path:ssml");
    m.append("\r\n\r\n");
    m.append("<speak version='1.0' xmlns='http://www.w3.org/2001/10/synthesis' xml:lang='en-US'><voice name='");
    m.append(config.voice_name.as_str());
    m.append("'><prosody pitch='");
    append_plus_signed(&mut m, config.pitch);
    m.append("Hz' rate='");
    append_plus_signed(&mut m, config.rate);
    m.append("%' volume='");
    append_plus_signed(&mut m, config.volume);
    m.append("%'>");
    m.append(text);
    m.append("</prosody></voice></speak>");
    assert(m@ =~= ssml_message_view(request_id@, timestamp@, text@, *config));
    m
}

/// Build the outbound configuration message: a text frame carrying the
/// header block (with the current timestamp) and the JSON body.
pub fn build_config_message(config: &SpeechConfig) -> (m: Frame)
    ensures
        m matches Frame::Text(s) && (exists|ts: Seq<char>|
            single_line(ts) && s@ == config_message_view(ts, config.audio_format@)),
{
    let ts = now_rfc2822();
    let m = build_config_message_with(ts.as_str(), config);
    assert(m@ == config_message_view(ts@, config.audio_format@));
    Frame::Text(m)
}

/// Build the outbound SSML message: a text frame carrying the header block
/// (with a fresh 32-hex-character request identifier and the current
/// timestamp) and the SSML document with the caller's text verbatim.
pub fn build_ssml_message(text: &str, config: &SpeechConfig) -> (m: Frame)
    ensures
        m matches Frame::Text(s) && (exists|rid: Seq<char>, ts: Seq<char>|
            rid.len() == 32 && single_line(rid) && single_line(ts) && s@ == ssml_message_view(
                rid,
                ts,
                text@,
                *config,
            )),
{
    let rid = new_request_id();
    let ts = now_rfc2822();
    let m = build_ssml_message_with(rid.as_str(), ts.as_str(), text, config);
    assert(m@ == ssml_message_view(rid@, ts@, text@, *config));
    Frame::Text(m)
}

/// Both outbound messages share one shape: a header block whose last header
/// is the message's `Path` (`speech.config` and `ssml` respectively),
/// followed by the same literal `\r\n\r\n` separator, followed by the body.
pub proof fn lemma_outbound_messages_shape(
    ts: Seq<char>,
    rid: Seq<char>,
    text: Seq<char>,
    config: SpeechConfig,
)
    ensures
        config_message_view(ts, config.audio_format@) == config_header_view(ts) + "\r\n\r\n"@
            + config_body_view(config.audio_format@),
        ssml_message_view(rid, ts, text, config) == ssml_header_view(rid, ts) + "\r\n\r\n"@
            + ssml_body_view(text, config),
        exists|p: Seq<char>| config_header_view(ts) == p + "Path:speech.config"@,
        exists|p: Seq<char>| ssml_header_view(rid, ts) == p + "Path:ssml"@,
{
    let config_prefix = "X-Timestamp:"@ + ts
        + "\r\nContent-Type:application/json; charset=utf-8\r\n"@;
    assert(config_header_view(ts) == config_prefix + "Path:speech.config"@);
    let ssml_prefix = "X-RequestId:"@ + rid + "\r\nContent-Type:application/ssml+xml\r\nX-Timestamp:"@
        + ts + "\r\n"@;
    assert(ssml_header_view(rid, ts) == ssml_prefix + "Path:ssml"@);
}

/// The same idempotence for a `response` marker frame (one that is not a
/// metadata or `turn.start` frame).
pub proof fn lemma_response_idempotent(st: TurnState, t: Seq<char>)
    requires
        !contains_seq(t, "audio.metadata"@),
        !contains_seq(t, "turn.start"@),
        contains_seq(t, "response"@),
    ensures
        ({
            let st1 = next_turn_state(st, FrameView::Text(t));
            &&& st1.response_seen
            &&& next_turn_state(st1, FrameView::Text(t)) == st1
            &&& classify_spec(st, FrameView::Text(t)) == ClassifyOutcome::Dropped
            &&& classify_spec(st1, FrameView::Text(t)) == ClassifyOutcome::Dropped
        }),
{
}

} // verus!
