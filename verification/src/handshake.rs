//! The data that goes into the WebSocket handshake request: the service URL
//! with its connection identifier and the clock-derived access token. The
//! handshake itself (HTTP upgrade, TLS) is an external collaborator; this
//! module computes the strings it needs.

use vstd::prelude::*;
use vstd::string::StringExecFns;
use sha2::Digest;
use crate::codec::new_request_id;
use crate::text::{append_decimal, dec_rep, hex_upper, to_hex_upper};

verus! {

/// The 32-byte digest the outside hash library computes for a byte sequence.
pub uninterp spec fn sha256_of(data: Seq<u8>) -> Seq<u8>;

/// Relies on sha2::Sha256 (through the Digest trait): the SHA-256 digest of
/// the input, 32 bytes, a function of the input bytes alone.
#[verifier::external_body]
fn sha256_digest(data: &Vec<u8>) -> (r: Vec<u8>)
    ensures
        r@ == sha256_of(data@),
        r@.len() == 32,
{
    sha2::Sha256::digest(data.as_slice()).to_vec()
}

/// Relies on std::time::SystemTime: nanoseconds since the Unix epoch, or 0
/// when the clock reads earlier than the epoch. The clock decides the value,
/// so nothing is stated of it.
#[verifier::external_body]
fn nanos_since_unix_epoch() -> (r: u128) {
    match std::time::SystemTime::now().duration_since(std::time::UNIX_EPOCH) {
        Ok(d) => d.as_nanos(),
        Err(_) => 0,
    }
}

/// The clock value folded to the token's granularity: 100-nanosecond ticks
/// counted from 1601 (the Unix epoch lies 11,644,473,600 seconds after it,
/// which is 116,444,736,000,000,000 ticks), rounded down to a multiple of
/// 3,000,000,000 ticks (five minutes).
pub open spec fn gec_ticks(nanos: u128) -> int {
    let ticks = nanos as int / 100 + 116_444_736_000_000_000;
    ticks - (ticks % 3_000_000_000)
}

/// Compute the folded tick count.
pub fn gec_ticks_of(nanos: u128) -> (r: u128)
    ensures
        r as int == gec_ticks(nanos),
{
    let ticks = nanos / 100 + 116_444_736_000_000_000u128;
    ticks - (ticks % 3_000_000_000u128)
}

/// What is hashed for the access token: the folded tick count in decimal,
/// immediately followed by the service's client token.
pub open spec fn gec_hash_input(nanos: u128) -> Seq<char> {
    dec_rep(gec_ticks(nanos) as nat) + "6A5AA1D4EAFF4E9FB37E23D68491D6F4"@
}

/// The access token for a given clock reading: the upper-case hexadecimal
/// SHA-256 digest of the tick count and client token.
pub fn sec_ms_gec_for(nanos: u128) -> (r: String)
    ensures
        r@ == hex_upper(sha256_of(vstd::utf8::encode_utf8(gec_hash_input(nanos)))),
{
    let ticks = gec_ticks_of(nanos);
    let mut input = String::new();
    append_decimal(&mut input, ticks);
    input.append("6A5AA1D4EAFF4E9FB37E23D68491D6F4");
    assert(input@ == gec_hash_input(nanos));
    let bytes = input.as_str().as_bytes_vec();
    let digest = sha256_digest(&bytes);
    to_hex_upper(&digest)
}

/// The access token for the clock's current reading.
pub fn gen_sec_ms_gec() -> (r: String)
    ensures
        exists|nanos: u128| r@ == hex_upper(
            sha256_of(#[trigger] vstd::utf8::encode_utf8(gec_hash_input(nanos))),
        ),
{
    let nanos = nanos_since_unix_epoch();
    let r = sec_ms_gec_for(nanos);
    assert(r@ == hex_upper(sha256_of(vstd::utf8::encode_utf8(gec_hash_input(nanos)))));
    r
}

/// The version tag sent beside the access token.
pub open spec fn gec_version() -> Seq<char> {
    "1-130.0.2849.68"@
}

/// The handshake URL: the service endpoint with its client token, then the
/// connection identifier, the access token, and the token version.
pub open spec fn websocket_url_view(
    connection_id: Seq<char>,
    sec_ms_gec: Seq<char>,
    version: Seq<char>,
) -> Seq<char> {
    "wss://speech.platform.bing.com/consumer/speech/synthesize/readaloud/edge/v1?TrustedClientToken=6A5AA1D4EAFF4E9FB37E23D68491D6F4&ConnectionId="@
        + connection_id + "&Sec-MS-GEC="@ + sec_ms_gec + "&Sec-MS-GEC-Version="@ + version
}

/// Assemble the handshake URL from a connection identifier and access token.
pub fn build_websocket_url(connection_id: &str, sec_ms_gec: &str) -> (r: String)
    ensures
        r@ == websocket_url_view(connection_id@, sec_ms_gec@, gec_version()),
{
    let mut url = String::new();
    url.append(
        "wss://speech.platform.bing.com/consumer/speech/synthesize/readaloud/edge/v1?TrustedClientToken=6A5AA1D4EAFF4E9FB37E23D68491D6F4&ConnectionId=",
    );
    url.append(connection_id);
    url.append("&Sec-MS-GEC=");
    url.append(sec_ms_gec);
    url.append("&Sec-MS-GEC-Version=");
    url.append("1-130.0.2849.68");
    assert(url@ =~= websocket_url_view(connection_id@, sec_ms_gec@, gec_version()));
    url
}

/// The handshake URL for a fresh connection: a random 32-hex-character
/// connection identifier and the current clock's access token.
pub fn websocket_request_url() -> (r: String)
    ensures
        exists|cid: Seq<char>, gec: Seq<char>|
            cid.len() == 32 && r@ == websocket_url_view(cid, gec, gec_version()),
{
    let connection_id = new_request_id();
    let gec = gen_sec_ms_gec();
    let r = build_websocket_url(connection_id.as_str(), gec.as_str());
    assert(r@ == websocket_url_view(connection_id@, gec@, gec_version()));
    r
}

} // verus!
