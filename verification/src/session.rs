//! Accumulation of one synthesis exchange: frames are fed in arrival order,
//! audio chunks and metadata events are retained, and on `turn.end` the
//! chunks' payloads (each past its own sub-header) are concatenated, in
//! receipt order, into the final audio byte sequence.

use vstd::prelude::*;
use crate::codec::{
    classify_spec, fresh_turn, next_turn_state, process_message, ClassifyOutcome, Frame,
    FrameView, ProcessedMessage, RejectReason, TurnState,
};
use crate::error::Error;
use crate::metadata::{AudioMetadata, AudioMetadataView};

verus! {

/// The finished product of one request: the format identifier it was
/// synthesized with, the assembled audio bytes, and the metadata events in
/// arrival order.
#[derive(Debug)]
pub struct SynthesizedAudio {
    pub audio_format: String,
    pub audio_bytes: Vec<u8>,
    pub audio_metadata: Vec<AudioMetadata>,
}

/// The audio payload of one retained chunk: the frame bytes past the chunk's
/// own header offset.
pub open spec fn chunk_payload(c: (Seq<u8>, usize)) -> Seq<u8> {
    if c.1 <= c.0.len() {
        c.0.subrange(c.1 as int, c.0.len() as int)
    } else {
        Seq::empty()
    }
}

/// The concatenation of all retained chunks' payloads, in receipt order.
pub open spec fn payload_concat(chunks: Seq<(Seq<u8>, usize)>) -> Seq<u8>
    decreases chunks.len(),
{
    if chunks.len() == 0 {
        Seq::empty()
    } else {
        payload_concat(chunks.drop_last()) + chunk_payload(chunks.last())
    }
}

/// Mathematical image of a [`SynthesisTurn`].
#[verifier::ext_equal]
pub struct SynthesisTurnView {
    pub chunks: Seq<(Seq<u8>, usize)>,
    pub metadata: Seq<AudioMetadataView>,
    pub state: TurnState,
}

/// The state of one in-progress request: the raw audio chunks with their
/// payload offsets (concatenation is deferred to the end), the metadata
/// events so far, and the turn flags.
pub struct SynthesisTurn {
    chunks: Vec<(Vec<u8>, usize)>,
    metadata: Vec<AudioMetadata>,
    state: TurnState,
}

impl View for SynthesisTurn {
    type V = SynthesisTurnView;

    closed spec fn view(&self) -> SynthesisTurnView {
        SynthesisTurnView {
            chunks: self.chunks.deep_view(),
            metadata: self.metadata.deep_view(),
            state: self.state,
        }
    }
}

/// Every retained chunk's offset lies within its bytes.
pub open spec fn turn_wf(t: SynthesisTurnView) -> bool {
    forall|i: int| 0 <= i < t.chunks.len() ==> (#[trigger] t.chunks[i]).1 <= t.chunks[i].0.len()
}

/// A fresh, empty turn.
pub open spec fn empty_turn() -> SynthesisTurnView {
    SynthesisTurnView { chunks: Seq::empty(), metadata: Seq::empty(), state: fresh_turn() }
}

/// Whether the turn accepts this frame (everything but a rejection).
pub open spec fn feed_accepts(t: SynthesisTurnView, frame: FrameView) -> bool {
    !(classify_spec(t.state, frame) is Rejected)
}

/// The turn after accepting one frame: flags advance, an audio frame appends
/// its chunk, a metadata frame appends its events.
pub open spec fn feed_transition(t: SynthesisTurnView, frame: FrameView) -> SynthesisTurnView {
    let st1 = next_turn_state(t.state, frame);
    match classify_spec(t.state, frame) {
        ClassifyOutcome::Dropped => SynthesisTurnView { state: st1, ..t },
        ClassifyOutcome::Audio(b, off) => SynthesisTurnView {
            state: st1,
            chunks: t.chunks.push((b, off as usize)),
            ..t
        },
        ClassifyOutcome::Metadata(evs) => SynthesisTurnView {
            state: st1,
            metadata: t.metadata + evs,
            ..t
        },
        ClassifyOutcome::Rejected(_) => t,
    }
}

/// How a rejection reason surfaces as an error value.
pub open spec fn reject_error_matches(e: Error, reason: RejectReason) -> bool {
    match reason {
        RejectReason::MalformedJson => e == Error::MalformedJson,
        RejectReason::UnexpectedShape => e == Error::UnexpectedShape,
        RejectReason::Truncated => e == Error::TruncatedFrame,
        RejectReason::Unexpected(t) => e matches Error::UnexpectedMessage(m) && m@ == t,
    }
}

impl SynthesisTurn {
    /// Begin a new request with no chunks, no metadata, and fresh flags.
    pub fn new() -> (r: SynthesisTurn)
        ensures
            r@ == empty_turn(),
            turn_wf(r@),
    {
        let r = SynthesisTurn { chunks: Vec::new(), metadata: Vec::new(), state: TurnState::new() };
        proof {
            assert(r@.chunks =~= Seq::<(Seq<u8>, usize)>::empty());
            assert(r@.metadata =~= Seq::<AudioMetadataView>::empty());
        }
        r
    }

    /// The turn has seen its `turn.end` marker.
    pub fn is_done(&self) -> (r: bool)
        ensures
            r == self@.state.turn_ended,
    {
        self.state.turn_ended
    }

    /// Feed one inbound frame to the turn. Accepted frames advance the flags
    /// and accumulate audio or metadata; a rejected frame leaves the turn
    /// untouched and surfaces its protocol error.
    pub fn feed(&mut self, frame: Frame) -> (r: Result<(), Error>)
        requires
            turn_wf(old(self)@),
        ensures
            turn_wf(final(self)@),
            if feed_accepts(old(self)@, frame@) {
                r is Ok && final(self)@ == feed_transition(old(self)@, frame@)
            } else {
                final(self)@ == old(self)@ && (r matches Err(e) && (
                classify_spec(old(self)@.state, frame@) matches ClassifyOutcome::Rejected(reason)
                    && reject_error_matches(e, reason)))
            },
    {
        let ghost pre = self@;
        let ghost frame_view = frame@;
        let outcome = process_message(frame, &mut self.state);
        match outcome {
            Ok(None) => {
                assert(self@ =~~= feed_transition(pre, frame_view));
                Ok(())
            },
            Ok(Some(ProcessedMessage::AudioBytes((bytes, offset)))) => {
                self.chunks.push((bytes, offset));
                assert(self@.chunks =~~= feed_transition(pre, frame_view).chunks);
                assert(self@ =~~= feed_transition(pre, frame_view));
                Ok(())
            },
            Ok(Some(ProcessedMessage::AudioMetadata(events))) => {
                let mut events = events;
                self.metadata.append(&mut events);
                assert(self@.metadata =~~= feed_transition(pre, frame_view).metadata);
                assert(self@ =~~= feed_transition(pre, frame_view));
                Ok(())
            },
            Err(e) => {
                assert(next_turn_state(pre.state, frame_view) == pre.state);
                assert(self@ =~~= pre);
                Err(e)
            },
        }
    }

    /// Close the turn: concatenate every retained chunk's payload, in receipt
    /// order, into the final byte sequence, paired with the metadata events
    /// and the request's audio format.
    pub fn finish(self, audio_format: String) -> (r: SynthesizedAudio)
        requires
            turn_wf(self@),
        ensures
            r.audio_format == audio_format,
            r.audio_bytes@ == payload_concat(self@.chunks),
            r.audio_metadata.deep_view() == self@.metadata,
    {
        let ghost chunks_view = self@.chunks;
        let mut audio_bytes: Vec<u8> = Vec::new();
        let mut i: usize = 0;
        while i < self.chunks.len()
            invariant
                turn_wf(self@),
                self@.chunks == chunks_view,
                0 <= i <= self.chunks.len(),
                self.chunks@.len() == chunks_view.len(),
                audio_bytes@ =~= payload_concat(chunks_view.subrange(0, i as int)),
            decreases self.chunks.len() - i,
        {
            let chunk = &self.chunks[i];
            let bytes = &chunk.0;
            let offset = chunk.1;
            assert(chunks_view[i as int] == (bytes@, offset));
            assert(offset <= bytes@.len());
            let mut j: usize = offset;
            while j < bytes.len()
                invariant
                    offset <= j <= bytes@.len(),
                    audio_bytes@ =~= payload_concat(chunks_view.subrange(0, i as int))
                        + bytes@.subrange(offset as int, j as int),
                decreases bytes@.len() - j,
            {
                audio_bytes.push(bytes[j]);
                j = j + 1;
            }
            proof {
                assert(chunks_view.subrange(0, i + 1 as int).drop_last() =~= chunks_view.subrange(
                    0,
                    i as int,
                ));
                assert(chunks_view.subrange(0, i + 1 as int).last() == chunks_view[i as int]);
                assert(chunk_payload(chunks_view[i as int]) =~= bytes@.subrange(
                    offset as int,
                    bytes@.len() as int,
                ));
            }
            i = i + 1;
        }
        assert(chunks_view.subrange(0, chunks_view.len() as int) =~= chunks_view);
        SynthesizedAudio { audio_format, audio_bytes, audio_metadata: self.metadata }
    }
}

/// A full session that receives, after its `turn.start`, a binary frame, a
/// metadata frame, a second binary frame and a `turn.end` — in that order —
/// accepts every frame and ends with exactly the two frames' payloads
/// concatenated in receipt order and exactly the metadata frame's events.
pub proof fn lemma_session_frame_order(
    start_text: Seq<char>,
    a: Seq<u8>,
    meta_text: Seq<char>,
    b: Seq<u8>,
    end_text: Seq<char>,
    evs: Seq<AudioMetadataView>,
)
    requires
        !crate::text::contains_seq(start_text, "audio.metadata"@),
        crate::text::contains_seq(start_text, "turn.start"@),
        crate::text::contains_seq(meta_text, "audio.metadata"@),
        ({
            &&& crate::text::find_first(meta_text, "\r\n\r\n"@) matches Some(i)
            &&& crate::metadata::metadata_parse(
                meta_text.subrange(i + 4, meta_text.len() as int),
            ) == crate::metadata::MetadataParse::Events(evs)
        }),
        a.len() >= 2 && crate::codec::binary_header_len(a) + 2 <= a.len(),
        b.len() >= 2 && crate::codec::binary_header_len(b) + 2 <= b.len(),
        !crate::text::contains_seq(end_text, "audio.metadata"@),
        !crate::text::contains_seq(end_text, "turn.start"@),
        !crate::text::contains_seq(end_text, "response"@),
        crate::text::contains_seq(end_text, "turn.end"@),
    ensures
        ({
            let off_a = crate::codec::binary_header_len(a) + 2;
            let off_b = crate::codec::binary_header_len(b) + 2;
            let t1 = feed_transition(empty_turn(), FrameView::Text(start_text));
            let t2 = feed_transition(t1, FrameView::Binary(a));
            let t3 = feed_transition(t2, FrameView::Text(meta_text));
            let t4 = feed_transition(t3, FrameView::Binary(b));
            let t5 = feed_transition(t4, FrameView::Text(end_text));
            &&& feed_accepts(empty_turn(), FrameView::Text(start_text))
            &&& feed_accepts(t1, FrameView::Binary(a))
            &&& feed_accepts(t2, FrameView::Text(meta_text))
            &&& feed_accepts(t3, FrameView::Binary(b))
            &&& feed_accepts(t4, FrameView::Text(end_text))
            &&& t5.state.turn_ended
            &&& payload_concat(t5.chunks) == a.subrange(off_a, a.len() as int) + b.subrange(
                off_b,
                b.len() as int,
            )
            &&& t5.metadata == evs
        }),
{
    reveal_strlit("\r\n\r\n");
    let off_a = crate::codec::binary_header_len(a) + 2;
    let off_b = crate::codec::binary_header_len(b) + 2;
    let t1 = feed_transition(empty_turn(), FrameView::Text(start_text));
    let t2 = feed_transition(t1, FrameView::Binary(a));
    let t3 = feed_transition(t2, FrameView::Text(meta_text));
    let t4 = feed_transition(t3, FrameView::Binary(b));
    let t5 = feed_transition(t4, FrameView::Text(end_text));
    let ca = (a, off_a as usize);
    let cb = (b, off_b as usize);
    let one = Seq::empty().push(ca);
    let two = one.push(cb);
    assert(t5.chunks =~~= two);
    assert(one.drop_last() =~~= Seq::<(Seq<u8>, usize)>::empty());
    assert(one.last() == ca);
    assert(payload_concat(Seq::<(Seq<u8>, usize)>::empty()) =~= Seq::<u8>::empty());
    assert(payload_concat(one) =~= chunk_payload(ca));
    assert(two.drop_last() =~~= one);
    assert(two.last() == cb);
    assert(payload_concat(two) =~= chunk_payload(ca) + chunk_payload(cb));
    assert(payload_concat(t5.chunks) == payload_concat(two));
    assert(t5.metadata =~= Seq::empty() + evs);
    assert(Seq::<AudioMetadataView>::empty() + evs =~= evs);
}

} // verus!
