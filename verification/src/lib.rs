//! Client-side logic for a text-to-speech streaming protocol carried over a
//! WebSocket connection: building the two outbound request messages,
//! classifying inbound frames, accumulating audio and metadata for one turn,
//! negotiating HTTP CONNECT / SOCKS4 / SOCKS5 proxy tunnels, and the readiness
//! latch that lets a sender and a reader share one connection.

pub mod codec;
pub mod config;
pub mod error;
pub mod handshake;
pub mod metadata;
pub mod proxy;
pub mod session;
pub mod stream;
pub mod text;
pub mod voice;
