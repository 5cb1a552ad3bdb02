//! Process-wide configuration threaded into the commands at startup.

use vstd::prelude::*;

verus! {

/// Key-derivation settings fixed when the process starts.
pub struct KeygenConfig {
    /// PBKDF2 iteration count; positive, fixed at startup, not
    /// caller-controlled afterwards.
    pub pbkdf2_iterations: u32,
}

impl KeygenConfig {
    /// The iteration count is positive.
    pub open spec fn wf(self) -> bool {
        self.pbkdf2_iterations >= 1
    }

    /// Accepts any positive iteration count and nothing else.
    pub fn new(pbkdf2_iterations: u32) -> (r: Option<KeygenConfig>)
        ensures
            r is Some <==> pbkdf2_iterations >= 1,
            r is Some ==> r->0.wf() && r->0.pbkdf2_iterations == pbkdf2_iterations,
    {
        if pbkdf2_iterations >= 1 {
            Some(KeygenConfig { pbkdf2_iterations })
        } else {
            None
        }
    }
}

/// The state the application shell holds for the lifetime of the process.
pub struct AppState {
    /// Key-derivation settings shared by every command.
    pub keygen_config: KeygenConfig,
}

impl AppState {
    /// Well-formed exactly when its configuration is.
    pub open spec fn wf(self) -> bool {
        self.keygen_config.wf()
    }
}

} // verus!
