//! A many-to-many chat relay: the envelope model, its JSON codec, the hub
//! that fans envelopes out to every session, and the per-connection
//! supervisor that decides what each event leads to.
pub mod json;
pub mod envelope;
pub mod codec;
pub mod session;
pub mod hub;
