use msedge_tts::config::SpeechConfig;
use msedge_tts::error::Error;
use msedge_tts::text::{contains_substring, find_substring};
use msedge_tts::voice::{parse_voice_catalog, Voice};

#[test]
fn catalog_parsing_reads_fields() {
    let text = "[{\"Name\":\"A\",\"ShortName\":\"a\",\"Gender\":\"Female\",\"Locale\":\"en-US\",\"SuggestedCodec\":\"audio-24khz-48kbitrate-mono-mp3\",\"FriendlyName\":\"A f\",\"Status\":\"GA\",\"VoiceTag\":{\"ContentCategories\":[\"News\"],\"VoicePersonalities\":[\"Friendly\",\"Positive\"]}},{\"Name\":\"B\"}]";
    let voices = parse_voice_catalog(text).expect("valid catalog");
    assert_eq!(voices.len(), 2);
    let a = &voices[0];
    assert_eq!(a.name, "A");
    assert_eq!(a.short_name.as_deref(), Some("a"));
    assert_eq!(a.gender.as_deref(), Some("Female"));
    assert_eq!(a.locale.as_deref(), Some("en-US"));
    assert_eq!(a.suggested_codec.as_deref(), Some("audio-24khz-48kbitrate-mono-mp3"));
    assert_eq!(a.friendly_name.as_deref(), Some("A f"));
    assert_eq!(a.status.as_deref(), Some("GA"));
    let tag = a.voice_tag.as_ref().unwrap();
    assert_eq!(tag.content_categories.as_deref(), Some(&["News".to_string()][..]));
    assert_eq!(
        tag.voice_personalities.as_deref(),
        Some(&["Friendly".to_string(), "Positive".to_string()][..])
    );
    let b = &voices[1];
    assert_eq!(b.name, "B");
    assert!(b.short_name.is_none() && b.voice_tag.is_none());
}

#[test]
fn catalog_must_be_an_array() {
    assert_eq!(parse_voice_catalog("{\"a\":1}"), Err(Error::MalformedJson));
    assert_eq!(parse_voice_catalog("not json"), Err(Error::MalformedJson));
    assert_eq!(parse_voice_catalog("[]"), Ok(vec![]));
}

#[test]
fn voice_from_name() {
    let v = Voice::from("en-US-AriaNeural".to_string());
    assert_eq!(v.name, "en-US-AriaNeural");
    assert!(v.suggested_codec.is_none());
    let v2 = Voice::from("x");
    assert_eq!(v2.name, "x");
}

#[test]
fn speech_config_from_voice() {
    let mut v = Voice::from("n");
    let c = SpeechConfig::from(&v);
    assert_eq!(c.voice_name, "n");
    assert_eq!(c.audio_format, "audio-24khz-48kbitrate-mono-mp3");
    assert_eq!((c.pitch, c.rate, c.volume), (0, 0, 0));
    v.suggested_codec = Some("webm-24khz-16bit-mono-opus".to_string());
    let c = SpeechConfig::from(&v);
    assert_eq!(c.audio_format, "webm-24khz-16bit-mono-opus");
}

#[test]
fn substring_search() {
    assert_eq!(find_substring("abcabc", "ca"), Some(2));
    assert_eq!(find_substring("abc", ""), Some(0));
    assert_eq!(find_substring("abc", "abcd"), None);
    assert!(contains_substring("Path:turn.start\r\n", "turn.start"));
    assert!(!contains_substring("turn.star", "turn.start"));
}
