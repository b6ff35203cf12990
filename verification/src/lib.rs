//! Bootstrap and secure-messaging core for a serverless peer-to-peer chat.
//!
//! Two parties exchange connection metadata as opaque strings (scanned or
//! pasted), negotiate a direct data channel, exchange public keys over it, and
//! from then on wrap every payload in a sealed-encryption envelope.  This
//! crate holds the protocol logic: the crypto provider contract, the wire
//! codec for signals and channel envelopes, the input classifier, the
//! session state machine, and the worker request handler.  Network, camera,
//! storage and rendering live outside and talk to this crate in plain values.

pub mod classify;
pub mod codec;
pub mod contacts;
pub mod crypto;
pub mod session;
pub mod worker_api;
