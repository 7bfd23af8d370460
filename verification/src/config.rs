//! Per-request synthesis configuration.

use vstd::prelude::*;
use vstd::string::StringExecFns;
use crate::voice::Voice;

verus! {

/// Configuration of one synthesis request: the voice, the audio output
/// format identifier, and three signed prosody deltas (pitch in Hz, rate and
/// volume in percent). Immutable once built.
#[derive(Debug, Clone)]
pub struct SpeechConfig {
    pub voice_name: String,
    /// An opaque codec/container identifier understood by the service, such
    /// as `audio-24khz-48kbitrate-mono-mp3`.
    pub audio_format: String,
    pub pitch: i32,
    pub rate: i32,
    pub volume: i32,
}

impl<'a> From<&'a Voice> for SpeechConfig {
    /// A voice turns into a configuration with its suggested codec (or a
    /// default mp3 format) and all prosody deltas zero.
    fn from(voice: &'a Voice) -> (r: Self)
        ensures
            r.voice_name == voice.name,
            match voice.suggested_codec {
                Some(f) => r.audio_format == f,
                None => r.audio_format@ == "audio-24khz-48kbitrate-mono-mp3"@,
            },
            r.pitch == 0 && r.rate == 0 && r.volume == 0,
    {
        let audio_format = match &voice.suggested_codec {
            Some(f) => f.clone(),
            None => String::from_str("audio-24khz-48kbitrate-mono-mp3"),
        };
        SpeechConfig {
            voice_name: voice.name.clone(),
            audio_format,
            pitch: 0,
            rate: 0,
            volume: 0,
        }
    }
}

impl<'a> vstd::std_specs::convert::FromSpecImpl<&'a Voice> for SpeechConfig {
    open spec fn obeys_from_spec() -> bool {
        false
    }

    open spec fn from_spec(voice: &'a Voice) -> Self {
        arbitrary()
    }
}

} // verus!
