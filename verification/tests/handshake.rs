use msedge_tts::handshake::{
    build_websocket_url, gec_ticks_of, gen_sec_ms_gec, sec_ms_gec_for, websocket_request_url,
};
use sha2::Digest;

#[test]
fn tick_folding() {
    // The Unix epoch itself: the offset is already a multiple of the
    // five-minute granule.
    assert_eq!(gec_ticks_of(0), 116_444_736_000_000_000);
    // One granule and a bit later, the remainder is cut.
    let nanos: u128 = 300_000_000_000 + 12_345;
    assert_eq!(gec_ticks_of(nanos), 116_444_736_000_000_000 + 3_000_000_000);
}

#[test]
fn access_token_matches_reference_digest() {
    let token = sec_ms_gec_for(0);
    let mut input = 116_444_736_000_000_000u128.to_string();
    input.push_str("6A5AA1D4EAFF4E9FB37E23D68491D6F4");
    let digest = sha2::Sha256::digest(input.as_bytes());
    let mut expected = String::new();
    for byte in digest.iter() {
        expected.push_str(&format!("{:02X}", byte));
    }
    assert_eq!(token, expected);
    assert_eq!(token.len(), 64);
    assert!(token.chars().all(|c| c.is_ascii_hexdigit() && !c.is_ascii_lowercase()));
}

#[test]
fn current_token_shape() {
    let token = gen_sec_ms_gec();
    assert_eq!(token.len(), 64);
    assert!(token.chars().all(|c| c.is_ascii_hexdigit()));
}

#[test]
fn websocket_url_exact() {
    let url = build_websocket_url("CID", "GEC");
    assert_eq!(
        url,
        "wss://speech.platform.bing.com/consumer/speech/synthesize/readaloud/edge/v1?TrustedClientToken=6A5AA1D4EAFF4E9FB37E23D68491D6F4&ConnectionId=CID&Sec-MS-GEC=GEC&Sec-MS-GEC-Version=1-130.0.2849.68"
    );
}

#[test]
fn fresh_websocket_url_carries_connection_id() {
    let url = websocket_request_url();
    let marker = "&ConnectionId=";
    let start = url.find(marker).unwrap() + marker.len();
    let rest = &url[start..];
    let cid = &rest[..rest.find('&').unwrap()];
    assert_eq!(cid.len(), 32);
    assert!(cid.chars().all(|c| c.is_ascii_hexdigit()));
    assert!(url.contains("&Sec-MS-GEC="));
    assert!(url.ends_with("&Sec-MS-GEC-Version=1-130.0.2849.68"));
}
