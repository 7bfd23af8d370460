//! Timing metadata carried by `audio.metadata` frames. The frame body is
//! JSON; decoding is delegated to an outside JSON library behind trusted
//! wrappers, and the shape of the decoded events is pinned by named
//! specification functions.

use vstd::prelude::*;
use crate::error::Error;

verus! {

/// One timing event from an `audio.metadata` frame: offsets and durations in
/// ticks, plus the text span the event refers to.
#[derive(Debug, Clone, PartialEq, Eq)]
pub struct AudioMetadata {
    pub metadata_type: Option<String>,
    pub offset: u64,
    pub duration: u64,
    pub text: Option<String>,
    pub length: u64,
    pub boundary_type: Option<String>,
}

/// Mathematical image of an [`AudioMetadata`].
pub struct AudioMetadataView {
    pub metadata_type: Option<Seq<char>>,
    pub offset: u64,
    pub duration: u64,
    pub text: Option<Seq<char>>,
    pub length: u64,
    pub boundary_type: Option<Seq<char>>,
}

impl DeepView for AudioMetadata {
    type V = AudioMetadataView;

    open spec fn deep_view(&self) -> AudioMetadataView {
        AudioMetadataView {
            metadata_type: self.metadata_type.deep_view(),
            offset: self.offset,
            duration: self.duration,
            text: self.text.deep_view(),
            length: self.length,
            boundary_type: self.boundary_type.deep_view(),
        }
    }
}

/// How a metadata frame body decodes: not JSON at all, JSON without an array
/// under the `Metadata` key, or the array's elements.
pub enum MetadataArrayParse {
    NotJson,
    NoArray,
    Items(Seq<serde_json::Value>),
}

/// What the JSON library finds under the `Metadata` key of the body text.
pub uninterp spec fn metadata_array(body: Seq<char>) -> MetadataArrayParse;

/// What one element of the `Metadata` array decodes to.
pub uninterp spec fn metadata_event_view(v: serde_json::Value) -> AudioMetadataView;

/// Result of decoding a whole metadata frame body.
pub enum MetadataParse {
    NotJson,
    NoArray,
    Events(Seq<AudioMetadataView>),
}

/// The events a metadata frame body decodes to, assembled from the two named
/// decoding steps.
pub open spec fn metadata_parse(body: Seq<char>) -> MetadataParse {
    match metadata_array(body) {
        MetadataArrayParse::NotJson => MetadataParse::NotJson,
        MetadataArrayParse::NoArray => MetadataParse::NoArray,
        MetadataArrayParse::Items(items) => MetadataParse::Events(
            items.map_values(|v: serde_json::Value| metadata_event_view(v)),
        ),
    }
}

/// Relies on serde_json::from_str and serde_json::Value::get / as_array: the
/// body parses to JSON holding an array under `Metadata` exactly when
/// `metadata_array` gives its elements.
#[verifier::external_body]
fn metadata_items(body: &str) -> (r: Result<Vec<serde_json::Value>, Error>)
    ensures
        match r {
            Ok(items) => metadata_array(body@) == MetadataArrayParse::Items(items@),
            Err(e) => match metadata_array(body@) {
                MetadataArrayParse::NotJson => e == Error::MalformedJson,
                MetadataArrayParse::NoArray => e == Error::UnexpectedShape,
                MetadataArrayParse::Items(_) => false,
            },
        },
{
    let value: serde_json::Value = match serde_json::from_str(body) {
        Ok(v) => v,
        Err(_) => return Err(Error::MalformedJson),
    };
    match value.get("Metadata").and_then(|m| m.as_array()) {
        Some(items) => Ok(items.clone()),
        None => Err(Error::UnexpectedShape),
    }
}

/// Relies on serde_json::Value's accessors: reads `Type`, `Data.Offset`,
/// `Data.Duration` and the `Data.text` fields of one array element, numbers
/// defaulting to 0 and absent strings to nothing.
#[verifier::external_body]
fn metadata_event_of(v: &serde_json::Value) -> (r: AudioMetadata)
    ensures
        r.deep_view() == metadata_event_view(*v),
{
    let s = |x: Option<&serde_json::Value>, k| x.and_then(|y| y.get(k)).and_then(|y| y.as_str()).map(str::to_string);
    let n = |x: Option<&serde_json::Value>, k| x.and_then(|y| y.get(k)).and_then(|y| y.as_u64()).unwrap_or(0);
    let data = v.get("Data");
    let txt = data.and_then(|d| d.get("text"));
    AudioMetadata {
        metadata_type: s(Some(v), "Type"),
        offset: n(data, "Offset"),
        duration: n(data, "Duration"),
        text: s(txt, "Text"),
        length: n(txt, "Length"),
        boundary_type: s(txt, "BoundaryType"),
    }
}

impl AudioMetadata {
    /// Decode the JSON body of a metadata frame into its events: an error
    /// when the body is not JSON or `Metadata` is not an array, otherwise one
    /// event per array element, in array order.
    pub fn from_str(text: &str) -> (r: Result<Vec<AudioMetadata>, Error>)
        ensures
            match metadata_parse(text@) {
                MetadataParse::Events(evs) => r matches Ok(v) && v.deep_view() == evs,
                MetadataParse::NotJson => r == Err::<Vec<AudioMetadata>, Error>(
                    Error::MalformedJson,
                ),
                MetadataParse::NoArray => r == Err::<Vec<AudioMetadata>, Error>(
                    Error::UnexpectedShape,
                ),
            },
    {
        let items = match metadata_items(text) {
            Ok(items) => items,
            Err(e) => return Err(e),
        };
        let ghost items_seq = items@;
        let mut events: Vec<AudioMetadata> = Vec::new();
        let mut i: usize = 0;
        while i < items.len()
            invariant
                items@ == items_seq,
                0 <= i <= items.len(),
                events.deep_view() =~= items_seq.subrange(0, i as int).map_values(
                    |v: serde_json::Value| metadata_event_view(v),
                ),
            decreases items.len() - i,
        {
            events.push(metadata_event_of(&items[i]));
            assert(items_seq.subrange(0, i + 1 as int).map_values(
                |v: serde_json::Value| metadata_event_view(v),
            ) =~= items_seq.subrange(0, i as int).map_values(
                |v: serde_json::Value| metadata_event_view(v),
            ).push(metadata_event_view(items_seq[i as int])));
            i = i + 1;
        }
        assert(items_seq.subrange(0, items_seq.len() as int) =~= items_seq);
        Ok(events)
    }
}

} // verus!
