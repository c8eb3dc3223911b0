//! Async WebSocket support: the verified core.
//!
//! The WebSocket protocol itself is handled by `tungstenite`; this crate holds the
//! decisions that sit around it: how stream and sink results are turned into readiness,
//! how a handshake that was interrupted is resumed, when a ping is answered, how a
//! tunnel through an HTTP or SOCKS5 proxy is negotiated, and which address a request
//! connects to.
pub mod auto_pong;
pub mod bytes;
pub mod compat;
pub mod connect;
pub mod extensions;
pub mod handshake;
pub mod message;
pub mod poll;
pub mod proxy;
pub mod stream;
