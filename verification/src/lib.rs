//! Short-link lifecycle engine: base62 identifier codec, URL normalization
//! and self-redirect guarding, per-client quota admission, and the decision
//! logic of the shorten and resolve flows.  The backing key-value store and
//! the HTTP transport live outside this crate; the functions here compute
//! every decision from plain values and state exactly what they return.

pub mod codec;
pub mod guard;
pub mod quota;
pub mod resolve;
pub mod settings;
pub mod shorten;
