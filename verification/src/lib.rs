//! Client-side transport and streaming layer for a daemon that exposes a
//! REST-like control API over a Unix-domain socket, plain TCP, or
//! mutually-authenticated TLS over TCP.
//!
//! The crate selects and describes a communication channel, loads and
//! validates client TLS material, classifies HTTP responses, and decodes
//! streaming response bodies (multi-document JSON per chunk, and
//! newline-delimited JSON across chunk boundaries).

pub mod errors;
pub mod strnum;
pub mod addr;
pub mod tls;
pub mod transport;
pub mod docker;
pub mod events;
pub mod codec;
