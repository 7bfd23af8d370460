//! Proxy tunnel negotiation: the byte-level requests and replies of HTTP
//! CONNECT, SOCKS4/SOCKS4a and SOCKS5 (with optional username/password
//! authentication). Everything that decides or computes is here and
//! verified; the caller's I/O layer writes the request bytes, reads the
//! reply bytes, and hands them back. The tunnel always targets port 443:
//! this client only ever tunnels to a TLS endpoint.

use vstd::prelude::*;
use vstd::string::{StringExecFns, StringSliceAdditionalSpecFns};
use crate::error::{HttpProxyError, ProxyError, Socks4ProxyError, Socks5ProxyError};
use crate::text::{lowercases_to, eq_ignore_ascii_case};

verus! {

/// An IP address as plain bytes: four for IPv4, sixteen for IPv6.
#[derive(Debug, Clone, Copy, PartialEq, Eq)]
pub enum IpAddress {
    V4([u8; 4]),
    V6([u8; 16]),
}

/// Address equality, field by field.
pub open spec fn ip_eq(a: IpAddress, b: IpAddress) -> bool {
    match (a, b) {
        (IpAddress::V4(x), IpAddress::V4(y)) => x@ == y@,
        (IpAddress::V6(x), IpAddress::V6(y)) => x@ == y@,
        _ => false,
    }
}

/// Compare two addresses.
pub fn ip_equal(a: &IpAddress, b: &IpAddress) -> (r: bool)
    ensures
        r == ip_eq(*a, *b),
{
    match (*a, *b) {
        (IpAddress::V4(x), IpAddress::V4(y)) => {
            let mut k: usize = 0;
            while k < 4
                invariant
                    0 <= k <= 4,
                    ip_eq(*a, *b) == (x@ == y@),
                    forall|m: int| 0 <= m < k ==> x@[m] == y@[m],
                decreases 4 - k,
            {
                if x[k] != y[k] {
                    proof {
                        assert(x@[k as int] != y@[k as int]);
                    }
                    return false;
                }
                k = k + 1;
            }
            assert(x@ =~= y@);
            true
        },
        (IpAddress::V6(x), IpAddress::V6(y)) => {
            let mut k: usize = 0;
            while k < 16
                invariant
                    0 <= k <= 16,
                    ip_eq(*a, *b) == (x@ == y@),
                    forall|m: int| 0 <= m < k ==> x@[m] == y@[m],
                decreases 16 - k,
            {
                if x[k] != y[k] {
                    proof {
                        assert(x@[k as int] != y@[k as int]);
                    }
                    return false;
                }
                k = k + 1;
            }
            assert(x@ =~= y@);
            true
        },
        _ => false,
    }
}

/// Append a byte slice to a byte vector.
fn push_bytes(out: &mut Vec<u8>, bytes: &[u8])
    ensures
        final(out)@ == old(out)@ + bytes@,
{
    let mut k: usize = 0;
    while k < bytes.len()
        invariant
            0 <= k <= bytes@.len(),
            out@ =~= old(out)@ + bytes@.subrange(0, k as int),
        decreases bytes@.len() - k,
    {
        out.push(bytes[k]);
        k = k + 1;
    }
    assert(out@ =~= old(out)@ + bytes@);
}

/// Which proxy protocol a URI scheme selects. No scheme defaults to HTTP
/// CONNECT.
#[derive(Debug, Clone, Copy, PartialEq, Eq, Structural)]
pub enum ProxyProtocol {
    Http,
    Socks4,
    Socks5,
}

/// The protocol a scheme selects, after ASCII lower-casing.
pub open spec fn spec_proxy_protocol(scheme: Option<Seq<char>>) -> Option<ProxyProtocol> {
    match scheme {
        None => Some(ProxyProtocol::Http),
        Some(s) => {
            if lowercases_to(s, "socks4"@) || lowercases_to(s, "socks4a"@) {
                Some(ProxyProtocol::Socks4)
            } else if lowercases_to(s, "socks5"@) || lowercases_to(s, "socks5h"@) {
                Some(ProxyProtocol::Socks5)
            } else if lowercases_to(s, "http"@) || lowercases_to(s, "https"@) {
                Some(ProxyProtocol::Http)
            } else {
                None
            }
        },
    }
}

/// Select the negotiation protocol from the proxy URI's scheme; an unknown
/// scheme is rejected, carrying the URI.
pub fn select_proxy_protocol(scheme: Option<&str>, uri: &str) -> (r: Result<
    ProxyProtocol,
    ProxyError,
>)
    ensures
        match spec_proxy_protocol(match scheme {
            Some(s) => Some(s@),
            None => None,
        }) {
            Some(p) => r == Ok::<ProxyProtocol, ProxyError>(p),
            None => r matches Err(ProxyError::NotSupportedScheme(u)) && u@ == uri@,
        },
{
    match scheme {
        None => Ok(ProxyProtocol::Http),
        Some(s) => {
            if eq_ignore_ascii_case(s, "socks4") || eq_ignore_ascii_case(s, "socks4a") {
                Ok(ProxyProtocol::Socks4)
            } else if eq_ignore_ascii_case(s, "socks5") || eq_ignore_ascii_case(s, "socks5h") {
                Ok(ProxyProtocol::Socks5)
            } else if eq_ignore_ascii_case(s, "http") || eq_ignore_ascii_case(s, "https") {
                Ok(ProxyProtocol::Http)
            } else {
                Err(ProxyError::NotSupportedScheme(uri.to_owned()))
            }
        },
    }
}

// ------------------------------------------------------------------
// HTTP CONNECT
// ------------------------------------------------------------------

/// Where and how to reach an HTTP proxy: host, port, and whether the proxy
/// connection itself is wrapped in TLS first.
#[derive(Debug)]
pub struct HttpProxyPlan {
    pub host: String,
    pub port: u16,
    pub use_tls: bool,
}

/// Validate the proxy URI parts for an HTTP CONNECT tunnel and decide host,
/// port (the scheme's default when absent: 443 for `https`, else 80) and TLS
/// use. Errors carry the proxy URI.
pub fn http_proxy_plan(scheme: Option<&str>, host: Option<&str>, port: Option<u16>, uri: &str)
    -> (r: Result<HttpProxyPlan, HttpProxyError>)
    ensures
        ({
            let https = scheme matches Some(s) && lowercases_to(s@, "https"@);
            let scheme_ok = match scheme {
                None => true,
                Some(s) => lowercases_to(s@, "http"@) || lowercases_to(s@, "https"@),
            };
            match host {
                None => r matches Err(HttpProxyError::NoProxyServerHostName(u)) && u@ == uri@,
                Some(h) => if h@.len() == 0 {
                    r matches Err(HttpProxyError::EmptyProxyServerHostName(u)) && u@ == uri@
                } else if !scheme_ok {
                    r matches Err(HttpProxyError::NotSupportedScheme(u)) && u@ == uri@
                } else {
                    r matches Ok(plan) && plan.host@ == h@ && plan.use_tls == https
                        && plan.port == (match port {
                        Some(p) => p,
                        None => if https { 443u16 } else { 80u16 },
                    })
                },
            }
        }),
{
    let h = match host {
        None => {
            return Err(HttpProxyError::NoProxyServerHostName(uri.to_owned()));
        },
        Some(h) => h,
    };
    if h.unicode_len() == 0 {
        return Err(HttpProxyError::EmptyProxyServerHostName(uri.to_owned()));
    }
    let https = match scheme {
        Some(s) => eq_ignore_ascii_case(s, "https"),
        None => false,
    };
    let scheme_ok = match scheme {
        None => true,
        Some(s) => eq_ignore_ascii_case(s, "http") || https,
    };
    if !scheme_ok {
        return Err(HttpProxyError::NotSupportedScheme(uri.to_owned()));
    }
    let port = match port {
        Some(p) => p,
        None => if https {
            443
        } else {
            80
        },
    };
    Ok(HttpProxyPlan { host: h.to_owned(), port, use_tls: https })
}

/// What the outside base64 encoder produces for a byte sequence: the
/// standard alphabet with `=` padding.
pub uninterp spec fn base64_of(bytes: Seq<u8>) -> Seq<char>;

/// Relies on base64's `STANDARD` engine (standard alphabet, padded): the
/// encoding is a function of the input bytes alone.
#[verifier::external_body]
fn base64_standard(data: &Vec<u8>) -> (r: String)
    ensures
        r@ == base64_of(data@),
{
    base64::Engine::encode(&base64::engine::general_purpose::STANDARD, data.as_slice())
}

/// The CONNECT request text: target host and port 443, an optional basic
/// proxy authorization line, keep-alive, and the blank line that ends the
/// header block.
pub open spec fn http_connect_request_view(host: Seq<char>, credential: Option<Seq<char>>)
    -> Seq<char> {
    "CONNECT "@ + host + ":443 HTTP/1.1\r\nHost: "@ + host + ":443\r\n"@ + (match credential {
        Some(c) => "Proxy-Authorization: Basic "@ + c + "\r\n"@,
        None => Seq::empty(),
    }) + "Proxy-Connection: Keep-Alive\r\n\r\n"@
}

/// The base64 credential for `user:pass`, over the pair's UTF-8 bytes.
pub open spec fn basic_credential(user: Seq<char>, pass: Seq<char>) -> Seq<char> {
    base64_of(vstd::utf8::encode_utf8(user + ":"@ + pass))
}

/// Build the CONNECT request for `target_host:443`, with a basic
/// authorization line exactly when both a username and a password are given.
pub fn build_http_proxy_request(
    target_host: &str,
    username: Option<&str>,
    password: Option<&str>,
) -> (r: String)
    ensures
        match (username, password) {
            (Some(u), Some(p)) => r@ == http_connect_request_view(
                target_host@,
                Some(basic_credential(u@, p@)),
            ),
            _ => r@ == http_connect_request_view(target_host@, None::<Seq<char>>),
        },
{
    let mut m = String::new();
    m.append("CONNECT ");
    m.append(target_host);
    m.append(":443 HTTP/1.1\r\nHost: ");
    m.append(target_host);
    m.append(":443\r\n");
    match (username, password) {
        (Some(u), Some(p)) => {
            let mut cred_text = String::new();
            cred_text.append(u);
            cred_text.append(":");
            cred_text.append(p);
            let cred_bytes = cred_text.as_str().as_bytes_vec();
            let credential = base64_standard(&cred_bytes);
            m.append("Proxy-Authorization: Basic ");
            m.append(credential.as_str());
            m.append("\r\n");
            m.append("Proxy-Connection: Keep-Alive\r\n\r\n");
            assert(cred_text@ =~= u@ + ":"@ + p@);
            assert(m@ =~= http_connect_request_view(
                target_host@,
                Some(basic_credential(u@, p@)),
            ));
        },
        _ => {
            m.append("Proxy-Connection: Keep-Alive\r\n\r\n");
            assert(m@ =~= http_connect_request_view(target_host@, None::<Seq<char>>));
        },
    }
    m
}

/// Whether the first `n` bytes read so far end with the `\r\n\r\n` header
/// terminator.
pub fn response_complete(buf: &[u8], n: usize) -> (r: bool)
    requires
        n <= buf@.len(),
    ensures
        r == (n >= 4 && buf@.subrange(n - 4, n as int) == seq![13u8, 10u8, 13u8, 10u8]),
{
    if n < 4 {
        return false;
    }
    let r = buf[n - 4] == 13 && buf[n - 3] == 10 && buf[n - 2] == 13 && buf[n - 1] == 10;
    proof {
        if r {
            assert(buf@.subrange(n - 4, n as int) =~= seq![13u8, 10u8, 13u8, 10u8]);
        } else {
            assert(buf@.subrange(n - 4, n as int) != seq![13u8, 10u8, 13u8, 10u8]) by {
                if buf@.subrange(n - 4, n as int) == seq![13u8, 10u8, 13u8, 10u8] {
                    assert(buf@.subrange(n - 4, n as int)[0] == 13u8);
                    assert(buf@.subrange(n - 4, n as int)[1] == 10u8);
                    assert(buf@.subrange(n - 4, n as int)[2] == 13u8);
                    assert(buf@.subrange(n - 4, n as int)[3] == 10u8);
                }
            }
        }
    }
    r
}

/// What the outside HTTP parser finds in the response head bytes: nothing
/// (malformed), or the status code (when one was parsed) and the reason
/// phrase (empty when absent).
pub enum HttpHeadParse {
    Invalid,
    Head(Option<u16>, Seq<char>),
}

/// The response head the outside HTTP parser reads from the bytes.
pub uninterp spec fn http_head_parse(s: Seq<u8>) -> HttpHeadParse;

/// Relies on httparse::Response::parse (with room for 5 headers, as this
/// client sends CONNECT and expects a short answer): the status code and
/// reason phrase of the response head, when the bytes parse at all.
#[verifier::external_body]
fn parse_http_response_head(buf: &[u8]) -> (r: Result<(Option<u16>, String), HttpProxyError>)
    ensures
        match r {
            Ok(head) => http_head_parse(buf@) == HttpHeadParse::Head(head.0, head.1@),
            Err(e) => http_head_parse(buf@) is Invalid && e matches
                HttpProxyError::InvalidResponse(_),
        },
{
    let mut headers = [httparse::EMPTY_HEADER; 5];
    let mut response = httparse::Response::new(&mut headers);
    match response.parse(buf) {
        Ok(_) => Ok((response.code, response.reason.unwrap_or("").to_string())),
        Err(e) => Err(HttpProxyError::InvalidResponse(e.to_string())),
    }
}

/// Judge the proxy's answer to CONNECT: success exactly on status 200; any
/// other status surfaces the code and reason phrase; a head without a status
/// code, or one that does not parse, is its own error.
pub fn evaluate_connect_response(buf: &[u8]) -> (r: Result<(), HttpProxyError>)
    ensures
        match http_head_parse(buf@) {
            HttpHeadParse::Head(code, reason) => match code {
                Some(c) => if c == 200 {
                    r == Ok::<(), HttpProxyError>(())
                } else {
                    r matches Err(HttpProxyError::BadResponse(rc, rs)) && rc == c && rs@ == reason
                },
                None => r == Err::<(), HttpProxyError>(HttpProxyError::NoStatusCode),
            },
            HttpHeadParse::Invalid => r matches Err(HttpProxyError::InvalidResponse(_)),
        },
{
    match parse_http_response_head(buf) {
        Ok((code, reason)) => match code {
            None => Err(HttpProxyError::NoStatusCode),
            Some(c) => if c == 200 {
                Ok(())
            } else {
                Err(HttpProxyError::BadResponse(c, reason))
            },
        },
        Err(e) => Err(e),
    }
}

// ------------------------------------------------------------------
// SOCKS4 / SOCKS4a
// ------------------------------------------------------------------

/// Validate the proxy URI parts for a SOCKS tunnel: a scheme, a nonempty
/// host and an explicit port are all required. Errors carry the proxy URI.
pub fn socks4_endpoint(scheme: Option<&str>, host: Option<&str>, port: Option<u16>, uri: &str)
    -> (r: Result<(String, u16), Socks4ProxyError>)
    ensures
        match scheme {
            None => r matches Err(Socks4ProxyError::NoScheme(u)) && u@ == uri@,
            Some(_) => match host {
                None => r matches Err(Socks4ProxyError::NoProxyServerHostName(u)) && u@ == uri@,
                Some(h) => if h@.len() == 0 {
                    r matches Err(Socks4ProxyError::EmptyProxyServerHostName(u)) && u@ == uri@
                } else {
                    match port {
                        None => r matches Err(Socks4ProxyError::NoProxyServerPort(u)) && u@
                            == uri@,
                        Some(p) => r matches Ok(ep) && ep.0@ == h@ && ep.1 == p,
                    }
                },
            },
        },
{
    if scheme.is_none() {
        return Err(Socks4ProxyError::NoScheme(uri.to_owned()));
    }
    let h = match host {
        None => {
            return Err(Socks4ProxyError::NoProxyServerHostName(uri.to_owned()));
        },
        Some(h) => h,
    };
    if h.unicode_len() == 0 {
        return Err(Socks4ProxyError::EmptyProxyServerHostName(uri.to_owned()));
    }
    match port {
        None => Err(Socks4ProxyError::NoProxyServerPort(uri.to_owned())),
        Some(p) => Ok((h.to_owned(), p)),
    }
}

/// Whether the client resolves the target itself (`socks4`) or defers
/// resolution to the proxy (`socks4a`).
#[derive(Debug, Clone, Copy, PartialEq, Eq, Structural)]
pub enum Socks4Kind {
    Resolve,
    Defer,
}

/// Decide the SOCKS4 flavor from the scheme, after ASCII lower-casing.
pub fn socks4_request_kind(scheme: &str, uri: &str) -> (r: Result<Socks4Kind, Socks4ProxyError>)
    ensures
        lowercases_to(scheme@, "socks4"@) ==> r == Ok::<Socks4Kind, Socks4ProxyError>(
            Socks4Kind::Resolve,
        ),
        lowercases_to(scheme@, "socks4a"@) ==> r == Ok::<Socks4Kind, Socks4ProxyError>(
            Socks4Kind::Defer,
        ),
        !lowercases_to(scheme@, "socks4"@) && !lowercases_to(scheme@, "socks4a"@) ==> (r matches
            Err(Socks4ProxyError::NotSupportedScheme(u)) && u@ == uri@),
{
    proof {
        reveal_strlit("socks4");
        reveal_strlit("socks4a");
    }
    if eq_ignore_ascii_case(scheme, "socks4") {
        Ok(Socks4Kind::Resolve)
    } else if eq_ignore_ascii_case(scheme, "socks4a") {
        Ok(Socks4Kind::Defer)
    } else {
        Err(Socks4ProxyError::NotSupportedScheme(uri.to_owned()))
    }
}

/// The SOCKS4 CONNECT request: version 4, command 1, port 443 big-endian,
/// the destination address (or the 0.0.0.1 sentinel when the proxy shall
/// resolve), the user id with its NUL, and — sentinel case only — the
/// hostname with its NUL.
pub open spec fn socks4_request_view(
    host: Seq<u8>,
    dst_ip: Option<[u8; 4]>,
    user: Option<Seq<u8>>,
) -> Seq<u8> {
    seq![4u8, 1u8, 1u8, 0xbbu8] + (match dst_ip {
        Some(ip) => ip@,
        None => seq![0u8, 0u8, 0u8, 1u8],
    }) + (match user {
        Some(u) => u,
        None => Seq::empty(),
    }) + seq![0u8] + (match dst_ip {
        Some(_) => Seq::empty(),
        None => host + seq![0u8],
    })
}

/// Build the SOCKS4/SOCKS4a CONNECT request for `target_host:443`; a given
/// address means SOCKS4 (the client resolved), none means SOCKS4a (the
/// 0.0.0.1 sentinel plus the hostname).
pub fn build_socks4_connection_request(
    target_host: &str,
    dst_ip: Option<[u8; 4]>,
    username: Option<&str>,
) -> (r: Vec<u8>)
    ensures
        r@ == socks4_request_view(target_host.spec_bytes(), dst_ip, match username {
            Some(u) => Some(u.spec_bytes()),
            None => None::<Seq<u8>>,
        }),
{
    let mut bytes: Vec<u8> = Vec::new();
    bytes.push(0x04);
    bytes.push(0x01);
    bytes.push(0x01);
    bytes.push(0xbb);
    match dst_ip {
        Some(ip) => {
            bytes.push(ip[0]);
            bytes.push(ip[1]);
            bytes.push(ip[2]);
            bytes.push(ip[3]);
            proof {
                assert(bytes@ =~= seq![4u8, 1u8, 1u8, 0xbbu8] + ip@);
            }
        },
        None => {
            bytes.push(0x00);
            bytes.push(0x00);
            bytes.push(0x00);
            bytes.push(0x01);
        },
    }
    if let Some(u) = username {
        push_bytes(&mut bytes, u.as_bytes());
    }
    bytes.push(0x00);
    if dst_ip.is_none() {
        push_bytes(&mut bytes, target_host.as_bytes());
        bytes.push(0x00);
    }
    assert(bytes@ =~= socks4_request_view(target_host.spec_bytes(), dst_ip, match username {
        Some(u) => Some(u.spec_bytes()),
        None => None::<Seq<u8>>,
    }));
    bytes
}

/// Judge the 8-byte SOCKS4 reply: byte 1 is the status — `0x5a` granted,
/// three distinct rejection codes, anything else unknown.
pub fn parse_socks4_reply(reply: &[u8; 8]) -> (r: Result<(), Socks4ProxyError>)
    ensures
        ({
            let code = reply@[1];
            if code == 0x5a {
                r == Ok::<(), Socks4ProxyError>(())
            } else if code == 0x5b {
                r == Err::<(), Socks4ProxyError>(Socks4ProxyError::RequestRejectedOrFailed(0x5b))
            } else if code == 0x5c {
                r == Err::<(), Socks4ProxyError>(Socks4ProxyError::NoneAvailableIdentdService(0x5c))
            } else if code == 0x5d {
                r == Err::<(), Socks4ProxyError>(Socks4ProxyError::IdentdCheckFailed(0x5d))
            } else {
                r == Err::<(), Socks4ProxyError>(Socks4ProxyError::UnknownReplyCode(code))
            }
        }),
{
    match reply[1] {
        0x5a => Ok(()),
        0x5b => Err(Socks4ProxyError::RequestRejectedOrFailed(0x5b)),
        0x5c => Err(Socks4ProxyError::NoneAvailableIdentdService(0x5c)),
        0x5d => Err(Socks4ProxyError::IdentdCheckFailed(0x5d)),
        code => Err(Socks4ProxyError::UnknownReplyCode(code)),
    }
}

// ------------------------------------------------------------------
// SOCKS5
// ------------------------------------------------------------------

/// Validate the proxy URI parts for a SOCKS5 tunnel; same demands as SOCKS4
/// but with this protocol's error family.
pub fn socks5_endpoint(scheme: Option<&str>, host: Option<&str>, port: Option<u16>, uri: &str)
    -> (r: Result<(String, u16), Socks5ProxyError>)
    ensures
        match scheme {
            None => r matches Err(Socks5ProxyError::NoScheme(u)) && u@ == uri@,
            Some(_) => match host {
                None => r matches Err(Socks5ProxyError::NoProxyServerHostName(u)) && u@ == uri@,
                Some(h) => if h@.len() == 0 {
                    r matches Err(Socks5ProxyError::EmptyProxyServerHostName(u)) && u@ == uri@
                } else {
                    match port {
                        None => r matches Err(Socks5ProxyError::NoProxyServerPort(u)) && u@
                            == uri@,
                        Some(p) => r matches Ok(ep) && ep.0@ == h@ && ep.1 == p,
                    }
                },
            },
        },
{
    if scheme.is_none() {
        return Err(Socks5ProxyError::NoScheme(uri.to_owned()));
    }
    let h = match host {
        None => {
            return Err(Socks5ProxyError::NoProxyServerHostName(uri.to_owned()));
        },
        Some(h) => h,
    };
    if h.unicode_len() == 0 {
        return Err(Socks5ProxyError::EmptyProxyServerHostName(uri.to_owned()));
    }
    match port {
        None => Err(Socks5ProxyError::NoProxyServerPort(uri.to_owned())),
        Some(p) => Ok((h.to_owned(), p)),
    }
}

/// Whether the client resolves the target itself (`socks5`) or sends the
/// hostname for the proxy to resolve (`socks5h`).
#[derive(Debug, Clone, Copy, PartialEq, Eq, Structural)]
pub enum Socks5Kind {
    Resolve,
    Defer,
}

/// Decide the SOCKS5 flavor from the scheme, after ASCII lower-casing.
pub fn socks5_request_kind(scheme: &str, uri: &str) -> (r: Result<Socks5Kind, Socks5ProxyError>)
    ensures
        lowercases_to(scheme@, "socks5"@) ==> r == Ok::<Socks5Kind, Socks5ProxyError>(
            Socks5Kind::Resolve,
        ),
        lowercases_to(scheme@, "socks5h"@) ==> r == Ok::<Socks5Kind, Socks5ProxyError>(
            Socks5Kind::Defer,
        ),
        !lowercases_to(scheme@, "socks5"@) && !lowercases_to(scheme@, "socks5h"@) ==> (r matches
            Err(Socks5ProxyError::NotSupportedScheme(u)) && u@ == uri@),
{
    proof {
        reveal_strlit("socks5");
        reveal_strlit("socks5h");
    }
    if eq_ignore_ascii_case(scheme, "socks5") {
        Ok(Socks5Kind::Resolve)
    } else if eq_ignore_ascii_case(scheme, "socks5h") {
        Ok(Socks5Kind::Defer)
    } else {
        Err(Socks5ProxyError::NotSupportedScheme(uri.to_owned()))
    }
}

/// Build the client greeting: with credentials it offers exactly no-auth
/// (0x00) and username/password (0x02); without, exactly no-auth.
pub fn build_socks5_greeting(has_credentials: bool) -> (r: Vec<u8>)
    ensures
        has_credentials ==> r@ == seq![5u8, 2u8, 0u8, 2u8],
        !has_credentials ==> r@ == seq![5u8, 1u8, 0u8],
{
    let mut bytes: Vec<u8> = Vec::new();
    bytes.push(0x05);
    if has_credentials {
        bytes.push(0x02);
        bytes.push(0x00);
        bytes.push(0x02);
        assert(bytes@ =~= seq![5u8, 2u8, 0u8, 2u8]);
    } else {
        bytes.push(0x01);
        bytes.push(0x00);
        assert(bytes@ =~= seq![5u8, 1u8, 0u8]);
    }
    bytes
}

/// Judge the server's 2-byte method choice: the version byte must be 0x05,
/// and the chosen method must be one the greeting offered (no-auth always;
/// username/password only when credentials were supplied).
pub fn parse_socks5_choice(reply: &[u8; 2], offered_auth: bool) -> (r: Result<
    u8,
    Socks5ProxyError,
>)
    ensures
        ({
            let ver = reply@[0];
            let method = reply@[1];
            if ver != 5 {
                r == Err::<u8, Socks5ProxyError>(Socks5ProxyError::BadResponseVersion(ver))
            } else if method == 0 {
                r == Ok::<u8, Socks5ProxyError>(0u8)
            } else if method == 2 && offered_auth {
                r == Ok::<u8, Socks5ProxyError>(2u8)
            } else {
                r == Err::<u8, Socks5ProxyError>(Socks5ProxyError::BadServerChoice(method))
            }
        }),
{
    if reply[0] != 0x05 {
        return Err(Socks5ProxyError::BadResponseVersion(reply[0]));
    }
    if reply[1] == 0x00 {
        Ok(0x00)
    } else if reply[1] == 0x02 && offered_auth {
        Ok(0x02)
    } else {
        Err(Socks5ProxyError::BadServerChoice(reply[1]))
    }
}

/// A credential field of the authentication request: its length then its
/// bytes; an empty credential is sent as length 1 with a single NUL.
pub open spec fn socks5_credential_field(c: Seq<u8>) -> Seq<u8> {
    if c.len() == 0 {
        seq![1u8, 0u8]
    } else {
        seq![c.len() as u8] + c
    }
}

/// The username/password authentication request: version 1, then the two
/// length-prefixed credential fields.
pub open spec fn socks5_auth_view(user: Seq<u8>, pass: Seq<u8>) -> Seq<u8> {
    seq![1u8] + socks5_credential_field(user) + socks5_credential_field(pass)
}

/// Build the username/password authentication request.
pub fn build_socks5_authentication_request(username: &str, password: &str) -> (r: Vec<u8>)
    requires
        username.spec_bytes().len() <= 255,
        password.spec_bytes().len() <= 255,
    ensures
        r@ == socks5_auth_view(username.spec_bytes(), password.spec_bytes()),
{
    let mut bytes: Vec<u8> = Vec::new();
    bytes.push(0x01);
    if username.len() == 0 {
        bytes.push(0x01);
        bytes.push(0x00);
    } else {
        bytes.push(username.len() as u8);
        push_bytes(&mut bytes, username.as_bytes());
    }
    if password.len() == 0 {
        bytes.push(0x01);
        bytes.push(0x00);
    } else {
        bytes.push(password.len() as u8);
        push_bytes(&mut bytes, password.as_bytes());
    }
    assert(bytes@ =~= socks5_auth_view(username.spec_bytes(), password.spec_bytes()));
    bytes
}

/// Judge the server's 2-byte answer to authentication: version 0x05 and
/// status 0x00 mean success; a refusal carries both reply bytes.
pub fn parse_socks5_auth_reply(reply: &[u8; 2]) -> (r: Result<(), Socks5ProxyError>)
    ensures
        ({
            let ver = reply@[0];
            let status = reply@[1];
            if ver != 5 {
                r == Err::<(), Socks5ProxyError>(Socks5ProxyError::BadResponseVersion(ver))
            } else if status != 0 {
                r == Err::<(), Socks5ProxyError>(
                    Socks5ProxyError::ClientAuthenticationFailed(ver, status),
                )
            } else {
                r == Ok::<(), Socks5ProxyError>(())
            }
        }),
{
    if reply[0] != 0x05 {
        return Err(Socks5ProxyError::BadResponseVersion(reply[0]));
    }
    if reply[1] != 0x00 {
        return Err(Socks5ProxyError::ClientAuthenticationFailed(reply[0], reply[1]));
    }
    Ok(())
}

/// The connection request: version 5, CONNECT, a reserved byte, the address
/// (typed 0x01/0x04 for a resolved IP, or 0x03 with a length-prefixed
/// hostname), and port 443 big-endian.
pub open spec fn socks5_connect_view(host: Seq<u8>, dst_ip: Option<IpAddress>) -> Seq<u8> {
    seq![5u8, 1u8, 0u8] + (match dst_ip {
        Some(IpAddress::V4(ip)) => seq![1u8] + ip@,
        Some(IpAddress::V6(ip)) => seq![4u8] + ip@,
        None => seq![3u8, host.len() as u8] + host,
    }) + seq![1u8, 0xbbu8]
}

/// Build the connection request for `target_host:443`: with a resolved
/// address for `socks5`, or the hostname itself for `socks5h`.
pub fn build_socks5_connection_request(target_host: &str, dst_ip: Option<IpAddress>) -> (r: Vec<
    u8,
>)
    requires
        dst_ip is None ==> target_host.spec_bytes().len() <= 255,
    ensures
        r@ == socks5_connect_view(target_host.spec_bytes(), dst_ip),
{
    let mut bytes: Vec<u8> = Vec::new();
    bytes.push(0x05);
    bytes.push(0x01);
    bytes.push(0x00);
    match dst_ip {
        Some(IpAddress::V4(ip)) => {
            bytes.push(0x01);
            let ip_ref: &[u8] = &ip;
            push_bytes(&mut bytes, ip_ref);
        },
        Some(IpAddress::V6(ip)) => {
            bytes.push(0x04);
            let ip_ref: &[u8] = &ip;
            push_bytes(&mut bytes, ip_ref);
        },
        None => {
            bytes.push(0x03);
            bytes.push(target_host.len() as u8);
            push_bytes(&mut bytes, target_host.as_bytes());
        },
    }
    bytes.push(0x01);
    bytes.push(0xbb);
    assert(bytes@ =~= socks5_connect_view(target_host.spec_bytes(), dst_ip));
    bytes
}

/// The address family of the server's bound address, which names how many
/// more bytes follow the 4-byte reply head.
#[derive(Debug, Clone, Copy, PartialEq, Eq, Structural)]
pub enum Socks5AddrKind {
    V4,
    V6,
}

impl Socks5AddrKind {
    /// How many bytes of bound address and port follow the reply head: 4+2
    /// for IPv4, 16+2 for IPv6.
    pub fn tail_len(&self) -> (r: usize)
        ensures
            self is V4 ==> r == 6,
            self is V6 ==> r == 18,
    {
        match self {
            Socks5AddrKind::V4 => 6,
            Socks5AddrKind::V6 => 18,
        }
    }
}

/// Judge the 4-byte head of the connection reply: status 0x00 is success
/// (and byte 3 names the bound address family); the eight defined failure
/// statuses map to distinct errors; anything else is an unknown code.
pub fn parse_socks5_reply_header(reply: &[u8; 4]) -> (r: Result<Socks5AddrKind, Socks5ProxyError>)
    ensures
        ({
            let status = reply@[1];
            let addr_type = reply@[3];
            if status == 0 {
                if addr_type == 1 {
                    r == Ok::<Socks5AddrKind, Socks5ProxyError>(Socks5AddrKind::V4)
                } else if addr_type == 4 {
                    r == Ok::<Socks5AddrKind, Socks5ProxyError>(Socks5AddrKind::V6)
                } else {
                    r == Err::<Socks5AddrKind, Socks5ProxyError>(
                        Socks5ProxyError::NotSupportedServerBindAddressType(addr_type),
                    )
                }
            } else if status == 1 {
                r == Err::<Socks5AddrKind, Socks5ProxyError>(Socks5ProxyError::GeneralFailure(1))
            } else if status == 2 {
                r == Err::<Socks5AddrKind, Socks5ProxyError>(
                    Socks5ProxyError::ConnectionNotAllowedByRules(2),
                )
            } else if status == 3 {
                r == Err::<Socks5AddrKind, Socks5ProxyError>(
                    Socks5ProxyError::NetworkUnreachable(3),
                )
            } else if status == 4 {
                r == Err::<Socks5AddrKind, Socks5ProxyError>(Socks5ProxyError::HostUnreachable(4))
            } else if status == 5 {
                r == Err::<Socks5AddrKind, Socks5ProxyError>(Socks5ProxyError::ConnectionRefused(5))
            } else if status == 6 {
                r == Err::<Socks5AddrKind, Socks5ProxyError>(Socks5ProxyError::TtlExpired(6))
            } else if status == 7 {
                r == Err::<Socks5AddrKind, Socks5ProxyError>(
                    Socks5ProxyError::CommandNotSupported(7),
                )
            } else if status == 8 {
                r == Err::<Socks5AddrKind, Socks5ProxyError>(
                    Socks5ProxyError::AddressTypeNotSupported(8),
                )
            } else {
                r == Err::<Socks5AddrKind, Socks5ProxyError>(
                    Socks5ProxyError::UnknownReplyCode(status),
                )
            }
        }),
{
    match reply[1] {
        0x00 => match reply[3] {
            0x01 => Ok(Socks5AddrKind::V4),
            0x04 => Ok(Socks5AddrKind::V6),
            addr_type => Err(Socks5ProxyError::NotSupportedServerBindAddressType(addr_type)),
        },
        0x01 => Err(Socks5ProxyError::GeneralFailure(0x01)),
        0x02 => Err(Socks5ProxyError::ConnectionNotAllowedByRules(0x02)),
        0x03 => Err(Socks5ProxyError::NetworkUnreachable(0x03)),
        0x04 => Err(Socks5ProxyError::HostUnreachable(0x04)),
        0x05 => Err(Socks5ProxyError::ConnectionRefused(0x05)),
        0x06 => Err(Socks5ProxyError::TtlExpired(0x06)),
        0x07 => Err(Socks5ProxyError::CommandNotSupported(0x07)),
        0x08 => Err(Socks5ProxyError::AddressTypeNotSupported(0x08)),
        code => Err(Socks5ProxyError::UnknownReplyCode(code)),
    }
}

/// Read the bound IPv4 address and port from the 6 bytes after the reply
/// head.
pub fn parse_socks5_bound_v4(tail: &[u8; 6]) -> (r: (IpAddress, u16))
    ensures
        r.0 matches IpAddress::V4(oct) && oct@ == tail@.subrange(0, 4),
        r.1 == tail@[4] * 256 + tail@[5],
{
    let octets: [u8; 4] = [tail[0], tail[1], tail[2], tail[3]];
    let port: u16 = (tail[4] as u16) * 256 + (tail[5] as u16);
    proof {
        assert(octets@ =~= tail@.subrange(0, 4));
    }
    (IpAddress::V4(octets), port)
}

/// Read the bound IPv6 address and port from the 18 bytes after the reply
/// head.
pub fn parse_socks5_bound_v6(tail: &[u8; 18]) -> (r: (IpAddress, u16))
    ensures
        r.0 matches IpAddress::V6(oct) && oct@ == tail@.subrange(0, 16),
        r.1 == tail@[16] * 256 + tail@[17],
{
    let octets: [u8; 16] = [
        tail[0],
        tail[1],
        tail[2],
        tail[3],
        tail[4],
        tail[5],
        tail[6],
        tail[7],
        tail[8],
        tail[9],
        tail[10],
        tail[11],
        tail[12],
        tail[13],
        tail[14],
        tail[15],
    ];
    let port: u16 = (tail[16] as u16) * 256 + (tail[17] as u16);
    proof {
        assert(octets@ =~= tail@.subrange(0, 16));
    }
    (IpAddress::V6(octets), port)
}

/// Whether the legacy post-connect step applies: when the server's bound
/// address differs from the socket's peer address, this client reconnects to
/// the bound address. Unusual for a CONNECT-only flow, and preserved as-is
/// for compatibility; likely vestigial rather than required.
pub fn socks5_should_reconnect(
    peer: &IpAddress,
    peer_port: u16,
    bound: &IpAddress,
    bound_port: u16,
) -> (r: bool)
    ensures
        r == !(ip_eq(*peer, *bound) && peer_port == bound_port),
{
    !(ip_equal(peer, bound) && peer_port == bound_port)
}

} // verus!
