//! Error taxonomy: protocol violations on the frame stream, transport
//! failures reported by the caller's I/O layer, and one error family per
//! proxy negotiation protocol. Outside-library error values never appear
//! here; the functions that call outside code translate them into these
//! variants, so every error carries plain data (codes, reason phrases, the
//! offending URI or message text).

use vstd::prelude::*;

verus! {

/// A failure while driving one synthesis exchange.
#[derive(Debug, PartialEq, Eq)]
pub enum Error {
    /// A text or control frame that matches no known classification; carries
    /// the raw text so the violation can be diagnosed.
    UnexpectedMessage(String),
    /// A metadata frame body that is not valid JSON.
    MalformedJson,
    /// A metadata frame body whose `Metadata` key does not hold an array.
    UnexpectedShape,
    /// A binary frame shorter than its own header-length prefix claims.
    TruncatedFrame,
    /// An I/O failure on the underlying stream, fatal to the connection.
    Transport(String),
    /// A proxy tunnel could not be negotiated.
    ProxyError(ProxyError),
}

/// A tunnel negotiation failure, one sub-kind per proxy protocol.
#[derive(Debug, PartialEq, Eq)]
pub enum ProxyError {
    HttpProxyError(HttpProxyError),
    Socks4ProxyError(Socks4ProxyError),
    Socks5ProxyError(Socks5ProxyError),
    /// A proxy URI whose scheme selects no supported protocol; carries the
    /// URI.
    NotSupportedScheme(String),
}

/// Failures while tunnelling through an HTTP CONNECT proxy. `String` fields
/// carry the proxy URI or a failure description.
#[derive(Debug, PartialEq, Eq)]
pub enum HttpProxyError {
    NoProxyServerHostName(String),
    EmptyProxyServerHostName(String),
    IoError(String),
    TlsError(String),
    InvalidResponse(String),
    /// The proxy answered CONNECT with a status other than 200; carries the
    /// status code and the reason phrase.
    BadResponse(u16, String),
    NoStatusCode,
    NotSupportedScheme(String),
}

/// Failures while tunnelling through a SOCKS4 or SOCKS4a proxy.
#[derive(Debug, PartialEq, Eq)]
pub enum Socks4ProxyError {
    NoScheme(String),
    NoProxyServerHostName(String),
    NoProxyServerPort(String),
    EmptyProxyServerHostName(String),
    IoError(String),
    NotSupportedScheme(String),
    /// The target host resolved to no IPv4 address; carries `host:port`.
    NoIpV4Addr(String),
    RequestRejectedOrFailed(u8),
    NoneAvailableIdentdService(u8),
    IdentdCheckFailed(u8),
    UnknownReplyCode(u8),
}

/// Failures while tunnelling through a SOCKS5 proxy.
#[derive(Debug, PartialEq, Eq)]
pub enum Socks5ProxyError {
    NoScheme(String),
    NoProxyServerHostName(String),
    NoProxyServerPort(String),
    EmptyProxyServerHostName(String),
    IoError(String),
    NotSupportedScheme(String),
    /// The target host resolved to no address; carries `host:port`.
    NoIpAddr(String),
    /// The server's version byte was not 0x05; carries that byte.
    BadResponseVersion(u8),
    /// The server chose an authentication method that was not offered.
    BadServerChoice(u8),
    /// Username/password authentication was refused; carries the two reply
    /// bytes.
    ClientAuthenticationFailed(u8, u8),
    NotSupportedServerBindAddressType(u8),
    GeneralFailure(u8),
    ConnectionNotAllowedByRules(u8),
    NetworkUnreachable(u8),
    HostUnreachable(u8),
    ConnectionRefused(u8),
    TtlExpired(u8),
    CommandNotSupported(u8),
    AddressTypeNotSupported(u8),
    UnknownReplyCode(u8),
}

} // verus!
