//! The configuration values the engine consumes: listen address, the
//! service's own public domain, and the per-window quota ceiling.  Loading
//! them from disk is the embedding program's business; the engine only reads
//! these plain values.

use vstd::prelude::*;

verus! {

/// Configuration of the running service, constructed once at startup and
/// passed into each flow that needs it.
#[derive(Debug)]
pub struct ApplicationSettings {
    /// Port the transport listens on.
    pub port: u16,
    /// Host the transport binds.
    pub host: String,
    /// The service's own public domain: the self-redirect guard compares
    /// against it, and short URLs are composed under it.
    pub base_url: String,
    /// Shorten requests each client may make per quota window.
    pub api_quota: u32,
}

} // verus!
