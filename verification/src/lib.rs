//! A pod: a local service that answers framed bencode requests by describing
//! its capabilities or by running SQL against a backing store.
//!
//! This crate holds the protocol layer: the wire codec, the framing rule, the
//! dispatcher, the row collector and the access coordinator. Sockets, threads and the
//! database engine itself are the caller's business.

pub mod access;
pub mod decode;
pub mod dispatch;
pub mod engine;
pub mod framing;
pub mod json;
pub mod protocol;
pub mod reply;
pub mod text;
pub mod tokens;
pub mod values;
pub mod wire;
