//! The local-file backend: a discovery-free alternative to the remote
//! protocol, operating directly on a root directory.  The file I/O itself
//! is the caller's; this module holds the backend's state and
//! construction.

use vstd::prelude::*;

verus! {

/// Configuration of the local-file backend: the directory that holds the
/// calendars.
pub struct VdirConfig {
    pub home_dir: String,
}

/// The local-file backend.  It has no discovery phase and no connection
/// concept; every operation runs against the home directory.
pub struct VdirClient {
    pub home_dir: String,
}

impl VdirClient {
    /// Bind the backend to the configured home directory.
    pub fn new(config: &VdirConfig) -> (c: Self)
        ensures
            c.home_dir@ == config.home_dir@,
    {
        Self { home_dir: config.home_dir.clone() }
    }
}

} // verus!
