use vstd::prelude::*;

verus! {

/// The gateway's own settings.
#[derive(Clone, Copy, Debug, PartialEq, Eq, Structural)]
pub struct BaseConfig {
    /// This server's id.
    pub server_id: u32,
    /// Seconds without a connection after which a session is reclaimed.
    pub peer_clean_timeout_sec: i64,
    /// Seconds without access after which cached account data is dropped.
    pub account_cache_cleans_timeout_sec: i64,
}

} // verus!
