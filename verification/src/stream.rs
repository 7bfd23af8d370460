//! The sender/reader split: one connection is shared by a producer that
//! enqueues requests and a consumer that drains response frames, under a
//! readiness latch that enforces strict alternation — a new request may only
//! be sent once the previous one's frames are fully drained, and frames may
//! only be read while a request is pending.

use vstd::prelude::*;
use crate::codec::{
    classify_spec, fresh_turn, next_turn_state, process_message, ClassifyOutcome, Frame,
    FrameView, ProcessedMessage, TurnState,
};
use crate::error::Error;
use crate::metadata::AudioMetadata;
use crate::session::{chunk_payload, reject_error_matches};

verus! {

/// One classified event handed to the reader: an audio segment with its
/// sub-header already stripped, or a list of metadata events.
#[derive(Debug)]
pub enum SynthesizedResponse {
    /// A synthesized audio byte segment.
    AudioBytes(Vec<u8>),
    /// Synthesized audio metadata events.
    AudioMetadata(Vec<AudioMetadata>),
}

/// Copy the payload of an audio chunk: the bytes from `index` on (empty when
/// `index` lies past the end).
fn payload_suffix(bytes: &Vec<u8>, index: usize) -> (r: Vec<u8>)
    ensures
        r@ == chunk_payload((bytes@, index)),
{
    let mut r: Vec<u8> = Vec::new();
    if index > bytes.len() {
        return r;
    }
    let mut j: usize = index;
    while j < bytes.len()
        invariant
            index <= j <= bytes@.len(),
            r@ =~= bytes@.subrange(index as int, j as int),
        decreases bytes@.len() - j,
    {
        r.push(bytes[j]);
        j = j + 1;
    }
    r
}

impl From<ProcessedMessage> for SynthesizedResponse {
    /// An audio message turns into its payload (the frame bytes past the
    /// sub-header offset); a metadata message keeps its events.
    fn from(message: ProcessedMessage) -> (r: Self)
        ensures
            match message {
                ProcessedMessage::AudioBytes((bytes, index)) => r matches
                    SynthesizedResponse::AudioBytes(v) && v@ == chunk_payload((bytes@, index)),
                ProcessedMessage::AudioMetadata(events) => r == SynthesizedResponse::AudioMetadata(
                    events,
                ),
            },
    {
        match message {
            ProcessedMessage::AudioBytes((bytes, index)) => SynthesizedResponse::AudioBytes(
                payload_suffix(&bytes, index),
            ),
            ProcessedMessage::AudioMetadata(events) => SynthesizedResponse::AudioMetadata(events),
        }
    }
}

impl vstd::std_specs::convert::FromSpecImpl<ProcessedMessage> for SynthesizedResponse {
    open spec fn obeys_from_spec() -> bool {
        false
    }

    open spec fn from_spec(message: ProcessedMessage) -> Self {
        arbitrary()
    }
}

/// The shared state behind the readiness latch: whether a request's frames
/// are pending to be read, and the turn flags of the request being drained.
#[derive(Debug, Clone, Copy, PartialEq, Eq, Structural)]
pub struct PipeState {
    pub data_pending: bool,
    pub turn: TurnState,
}

/// A new request may be sent only while no data is pending.
pub open spec fn send_enabled(p: PipeState) -> bool {
    !p.data_pending
}

/// The latch after a send: data is pending, the turn flags untouched.
pub open spec fn after_send(p: PipeState) -> PipeState {
    PipeState { data_pending: true, ..p }
}

/// The latch after the reader classifies one frame: a rejected frame changes
/// nothing; a frame that completes the turn (all three flags at once) resets
/// the flags and reopens the latch; any other frame just advances the flags.
pub open spec fn after_frame(p: PipeState, frame: FrameView) -> PipeState {
    let st1 = next_turn_state(p.turn, frame);
    if classify_spec(p.turn, frame) is Rejected {
        p
    } else if st1.complete() {
        PipeState { data_pending: false, turn: fresh_turn() }
    } else {
        PipeState { data_pending: p.data_pending, turn: st1 }
    }
}

impl PipeState {
    /// The latch of a freshly split connection: nothing pending, fresh flags.
    pub fn new() -> (r: PipeState)
        ensures
            r == (PipeState { data_pending: false, turn: fresh_turn() }),
    {
        PipeState { data_pending: false, turn: TurnState::new() }
    }

    /// Whether a new request may be sent now.
    pub fn can_send(&self) -> (r: bool)
        ensures
            r == send_enabled(*self),
    {
        !self.data_pending
    }

    /// Whether response data is pending to be read.
    pub fn can_read(&self) -> (r: bool)
        ensures
            r == self.data_pending,
    {
        self.data_pending
    }

    /// Record that both request messages were written: the latch closes for
    /// senders and opens for the reader.
    pub fn mark_sent(&mut self)
        requires
            send_enabled(*old(self)),
        ensures
            *final(self) == after_send(*old(self)),
    {
        self.data_pending = true;
    }

    /// Classify one frame read while data is pending. When the turn state
    /// machine reaches all three flags at once, the flags reset and the latch
    /// flips back to "no data pending", unblocking the next send.
    pub fn on_frame(&mut self, frame: Frame) -> (r: Result<Option<SynthesizedResponse>, Error>)
        requires
            old(self).data_pending,
        ensures
            *final(self) == after_frame(*old(self), frame@),
            match classify_spec(old(self).turn, frame@) {
                ClassifyOutcome::Dropped => r == Ok::<Option<SynthesizedResponse>, Error>(None),
                ClassifyOutcome::Audio(b, off) => r matches Ok(
                    Some(SynthesizedResponse::AudioBytes(v)),
                ) && v@ == chunk_payload((b, off as usize)),
                ClassifyOutcome::Metadata(evs) => r matches Ok(
                    Some(SynthesizedResponse::AudioMetadata(m)),
                ) && m.deep_view() == evs,
                ClassifyOutcome::Rejected(reason) => r matches Err(e) && reject_error_matches(
                    e,
                    reason,
                ),
            },
    {
        let message = match process_message(frame, &mut self.turn) {
            Ok(m) => m,
            Err(e) => {
                return Err(e);
            },
        };
        if self.turn.turn_started && self.turn.response_seen && self.turn.turn_ended {
            self.turn = TurnState::new();
            self.data_pending = false;
        }
        match message {
            None => Ok(None),
            Some(m) => Ok(Some(SynthesizedResponse::from(m))),
        }
    }
}

/// Whenever no data is pending, the turn flags are all false: each new
/// request starts from a fresh turn.
pub open spec fn pipe_inv(p: PipeState) -> bool {
    !p.data_pending ==> p.turn == fresh_turn()
}

/// The latch's transitions preserve [`pipe_inv`], so a reusable connection
/// always begins its next request with fresh flags.
pub proof fn lemma_pipe_invariant(p: PipeState, frame: FrameView)
    requires
        pipe_inv(p),
    ensures
        pipe_inv(after_send(p)),
        p.data_pending ==> pipe_inv(after_frame(p, frame)),
{
}

/// A second send waits for the drain: after a send the latch blocks sending;
/// a frame that does not complete the turn keeps it blocked; the frame that
/// completes the turn reopens it.
pub proof fn lemma_send_blocked_until_drain(p: PipeState, frame: FrameView)
    requires
        send_enabled(p),
    ensures
        !send_enabled(after_send(p)),
        !(classify_spec(after_send(p).turn, frame) is Rejected) && !next_turn_state(
            after_send(p).turn,
            frame,
        ).complete() ==> !send_enabled(after_frame(after_send(p), frame)),
        !(classify_spec(after_send(p).turn, frame) is Rejected) && next_turn_state(
            after_send(p).turn,
            frame,
        ).complete() ==> send_enabled(after_frame(after_send(p), frame)),
{
}

} // verus!
