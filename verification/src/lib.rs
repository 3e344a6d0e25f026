//! The core of a remote-procedure-call server: frames on a byte stream,
//! request and response envelopes, a route table from method names to
//! services, and the steps of a connection and of a listener.
//!
//! The library reads no socket and waits for nothing. It is handed bytes,
//! documents and outcomes, and says what they amount to and what is to be done
//! next; each answer is stated as a contract and proved.

pub mod args;
pub mod database;
pub mod decimal;
pub mod handlers;
pub mod json;
pub mod jsonrpc;
pub mod router;
pub mod service;
pub mod text;
pub mod transport;
pub mod types;
