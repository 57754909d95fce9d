//! Startup options for the whole service.

use vstd::prelude::*;

verus! {

/// Options the service is started with: where to bind, where the hook
/// scripts live, how many worker threads the processor may use, whether
/// the health endpoint answers, and how many reverse proxies stand in
/// front of the listener.
pub struct FisherOptions {
    pub bind: String,
    pub hooks_dir: String,
    pub max_threads: u16,
    pub enable_health: bool,
    pub behind_proxies: Option<u8>,
}

impl FisherOptions {
    /// The default options: bind locally, one worker, health enabled,
    /// no reverse proxy.
    pub fn defaults() -> (r: Self)
        ensures
            r.bind@ == "127.0.0.1:8000"@,
            r.hooks_dir@ == "hooks/"@,
            r.max_threads == 1u16,
            r.enable_health,
            r.behind_proxies is None,
    {
        FisherOptions {
            bind: "127.0.0.1:8000".to_owned(),
            hooks_dir: "hooks/".to_owned(),
            max_threads: 1,
            enable_health: true,
            behind_proxies: None,
        }
    }
}

} // verus!
