//! Voice catalog types and retrieval. The catalog itself is an external
//! collaborator: a plain HTTPS GET that returns a JSON array of voice
//! descriptions. Fetching and decoding happen behind trusted wrappers; the
//! library only assembles the request data and carries the decoded values.

use vstd::prelude::*;
use crate::error::Error;

verus! {

/// Voice category tags and personality tags.
#[derive(Debug, Clone, PartialEq, Eq)]
pub struct VoiceTag {
    pub content_categories: Option<Vec<String>>,
    pub voice_personalities: Option<Vec<String>>,
}

/// One entry of the voice catalog.
#[derive(Debug, Clone, PartialEq, Eq)]
pub struct Voice {
    pub name: String,
    pub short_name: Option<String>,
    pub gender: Option<String>,
    pub locale: Option<String>,
    pub suggested_codec: Option<String>,
    pub friendly_name: Option<String>,
    pub status: Option<String>,
    pub voice_tag: Option<VoiceTag>,
}

/// Mathematical image of a [`VoiceTag`].
pub struct VoiceTagView {
    pub content_categories: Option<Seq<Seq<char>>>,
    pub voice_personalities: Option<Seq<Seq<char>>>,
}

/// Mathematical image of a [`Voice`].
pub struct VoiceView {
    pub name: Seq<char>,
    pub short_name: Option<Seq<char>>,
    pub gender: Option<Seq<char>>,
    pub locale: Option<Seq<char>>,
    pub suggested_codec: Option<Seq<char>>,
    pub friendly_name: Option<Seq<char>>,
    pub status: Option<Seq<char>>,
    pub voice_tag: Option<VoiceTagView>,
}

impl DeepView for VoiceTag {
    type V = VoiceTagView;

    open spec fn deep_view(&self) -> VoiceTagView {
        VoiceTagView {
            content_categories: self.content_categories.deep_view(),
            voice_personalities: self.voice_personalities.deep_view(),
        }
    }
}

impl DeepView for Voice {
    type V = VoiceView;

    open spec fn deep_view(&self) -> VoiceView {
        VoiceView {
            name: self.name@,
            short_name: self.short_name.deep_view(),
            gender: self.gender.deep_view(),
            locale: self.locale.deep_view(),
            suggested_codec: self.suggested_codec.deep_view(),
            friendly_name: self.friendly_name.deep_view(),
            status: self.status.deep_view(),
            voice_tag: self.voice_tag.deep_view(),
        }
    }
}

impl From<String> for Voice {
    fn from(voice_name: String) -> (r: Self) {
        Voice {
            name: voice_name,
            short_name: None,
            gender: None,
            locale: None,
            suggested_codec: None,
            friendly_name: None,
            status: None,
            voice_tag: None,
        }
    }
}

impl vstd::std_specs::convert::FromSpecImpl<String> for Voice {
    open spec fn obeys_from_spec() -> bool {
        true
    }

    open spec fn from_spec(voice_name: String) -> Self {
        Voice {
            name: voice_name,
            short_name: None,
            gender: None,
            locale: None,
            suggested_codec: None,
            friendly_name: None,
            status: None,
            voice_tag: None,
        }
    }
}

impl<'a> From<&'a str> for Voice {
    fn from(voice_name: &'a str) -> (r: Self)
        ensures
            r.name@ == voice_name@,
            r.short_name is None && r.gender is None && r.locale is None,
            r.suggested_codec is None && r.friendly_name is None,
            r.status is None && r.voice_tag is None,
    {
        Voice::from(voice_name.to_owned())
    }
}

impl<'a> vstd::std_specs::convert::FromSpecImpl<&'a str> for Voice {
    open spec fn obeys_from_spec() -> bool {
        false
    }

    open spec fn from_spec(voice_name: &'a str) -> Self {
        arbitrary()
    }
}

/// What one catalog entry decodes to. Decoding is done by an outside JSON
/// library, so the function is named rather than written out.
pub uninterp spec fn voice_of(v: serde_json::Value) -> VoiceView;

/// What the catalog body text decodes to: `None` when the text is not a JSON
/// array, otherwise the array's elements.
pub uninterp spec fn voice_catalog_items(s: Seq<char>) -> Option<Seq<serde_json::Value>>;

#[verifier::external_type_specification]
#[verifier::external_body]
pub struct ExJsonValue(serde_json::Value);

/// Relies on serde_json::from_str: the catalog text parses to a JSON array
/// exactly when `voice_catalog_items` gives its elements.
#[verifier::external_body]
fn voice_items(text: &str) -> (r: Result<Vec<serde_json::Value>, Error>)
    ensures
        match r {
            Ok(items) => voice_catalog_items(text@) == Some(items@),
            Err(e) => voice_catalog_items(text@) is None && e == Error::MalformedJson,
        },
{
    match serde_json::from_str(text) {
        Ok(serde_json::Value::Array(items)) => Ok(items),
        _ => Err(Error::MalformedJson),
    }
}

/// Relies on serde_json::Value's accessors: reads the string fields and tag
/// lists of one catalog entry, with absent fields left empty.
#[verifier::external_body]
fn voice_of_value(v: &serde_json::Value) -> (r: Voice)
    ensures
        r.deep_view() == voice_of(*v),
{
    let s = |k| v.get(k).and_then(|x| x.as_str()).map(str::to_string);
    let g = |t: &serde_json::Value, k: &str| t.get(k).and_then(|x| x.as_array()).map(
        |a| a.iter().map(|e| e.as_str().unwrap_or("").to_string()).collect(),
    );
    Voice {
        name: s("Name").unwrap_or_default(),
        short_name: s("ShortName"), gender: s("Gender"), locale: s("Locale"),
        suggested_codec: s("SuggestedCodec"), friendly_name: s("FriendlyName"),
        status: s("Status"),
        voice_tag: v.get("VoiceTag").map(|t| VoiceTag {
            content_categories: g(t, "ContentCategories"), voice_personalities: g(t, "VoicePersonalities"),
        }),
    }
}

/// Relies on isahc: performs a blocking HTTPS GET of `url` with the given
/// headers and hands back the response body text. The outcome depends on the
/// network, so nothing is stated of it.
#[verifier::external_body]
fn http_get_text(url: &str, headers: &Vec<(String, String)>) -> (r: Result<String, Error>) {
    let mut builder = isahc::Request::get(url);
    for (k, v) in headers.iter() {
        builder = builder.header(k.as_str(), v.as_str());
    }
    match builder.body(()).map_err(|e| e.to_string()) {
        Ok(q) => match isahc::RequestExt::send(q).map_err(|e| e.to_string()) {
            Ok(mut resp) => isahc::ReadResponseExt::text(&mut resp)
                .map_err(|e| Error::Transport(e.to_string())),
            Err(e) => Err(Error::Transport(e)),
        },
        Err(e) => Err(Error::Transport(e)),
    }
}

/// The browser-mimicking headers sent with the catalog request.
fn voice_request_headers() -> Vec<(String, String)> {
    let mut headers: Vec<(String, String)> = Vec::new();
    headers.push((String::from_str("Sec-CH-UA"), String::from_str(
        "\" Not;A Brand\";v=\"99\", \"Microsoft Edge\";v=\"130\", \"Chromium\";v=\"130\"",
    )));
    headers.push((String::from_str("Sec-CH-UA-Mobile"), String::from_str("?0")));
    headers.push((String::from_str("User-Agent"), String::from_str(
        "Mozilla/5.0 (Windows NT 10.0; Win64; x64) AppleWebKit/537.36 (KHTML, like Gecko) Chrome/130.0.0.0 Safari/537.36 Edg/130.0.0.0",
    )));
    headers.push((String::from_str("Sec-CH-UA-Platform"), String::from_str("\"Windows\"")));
    headers.push((String::from_str("Sec-Fetch-Site"), String::from_str("none")));
    headers.push((String::from_str("Sec-Fetch-Mode"), String::from_str("cors")));
    headers.push((String::from_str("Sec-Fetch-Dest"), String::from_str("empty")));
    headers
}

/// What a catalog body text decodes to, when it is a JSON array at all: one
/// voice per element, in array order.
pub open spec fn voice_catalog_parse(s: Seq<char>) -> Option<Seq<VoiceView>> {
    match voice_catalog_items(s) {
        Some(items) => Some(items.map_values(|v: serde_json::Value| voice_of(v))),
        None => None,
    }
}

/// Decode a catalog body: an error when the text is not a JSON array,
/// otherwise the array's voices in order.
pub fn parse_voice_catalog(text: &str) -> (r: Result<Vec<Voice>, Error>)
    ensures
        match voice_catalog_parse(text@) {
            Some(views) => r matches Ok(voices) && voices.deep_view() == views,
            None => r == Err::<Vec<Voice>, Error>(Error::MalformedJson),
        },
{
    let items = match voice_items(text) {
        Ok(items) => items,
        Err(e) => return Err(e),
    };
    let ghost items_seq = items@;
    let mut voices: Vec<Voice> = Vec::new();
    let mut i: usize = 0;
    while i < items.len()
        invariant
            items@ == items_seq,
            0 <= i <= items.len(),
            voices.deep_view() =~= items_seq.subrange(0, i as int).map_values(
                |v: serde_json::Value| voice_of(v),
            ),
        decreases items.len() - i,
    {
        voices.push(voice_of_value(&items[i]));
        assert(items_seq.subrange(0, i + 1 as int).map_values(
            |v: serde_json::Value| voice_of(v),
        ) =~= items_seq.subrange(0, i as int).map_values(|v: serde_json::Value| voice_of(v)).push(
            voice_of(items_seq[i as int]),
        ));
        i = i + 1;
    }
    assert(items_seq.subrange(0, items_seq.len() as int) =~= items_seq);
    Ok(voices)
}

/// Fetch the list of available voices from the catalog endpoint.
///
/// The network decides the outcome; whatever body comes back, the returned
/// voices are exactly its decoded catalog entries.
pub fn get_voices_list() -> (r: Result<Vec<Voice>, Error>)
    ensures
        r matches Ok(voices) ==> exists|body: Seq<char>|
            #[trigger] voice_catalog_parse(body) == Some(voices.deep_view()),
{
    let headers = voice_request_headers();
    let body = match http_get_text(
        "https://speech.platform.bing.com/consumer/speech/synthesize/readaloud/voices/list?trustedclienttoken=6A5AA1D4EAFF4E9FB37E23D68491D6F4",
        &headers,
    ) {
        Ok(b) => b,
        Err(e) => return Err(e),
    };
    let voices = match parse_voice_catalog(body.as_str()) {
        Ok(voices) => voices,
        Err(e) => return Err(e),
    };
    assert(voice_catalog_parse(body@) == Some(voices.deep_view()));
    Ok(voices)
}

} // verus!
