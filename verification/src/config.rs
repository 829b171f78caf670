//! System configuration: the identity stamped on generated artifacts.
//!
//! The configuration is an explicit value threaded through the callers that
//! need it; no hidden process-wide state.

use vstd::prelude::*;

verus! {

/// The system configuration consumed by reporting and data generation.
#[derive(Clone, Debug)]
pub struct SystemConfig {
    pub user: String,
}

impl SystemConfig {
    /// A configuration carrying the default user identity.
    pub fn new() -> (r: Self)
        ensures
            r.user@ == "olafcio42"@,
    {
        SystemConfig { user: "olafcio42".to_owned() }
    }
}

/// The user recorded in the given configuration.
pub fn get_current_user(config: &SystemConfig) -> (r: String)
    ensures
        r@ == config.user@,
{
    config.user.clone()
}

/// Replaces the configured user when one is given; keeps it otherwise.
pub fn initialize_config(config: &mut SystemConfig, user: Option<String>)
    ensures
        user matches Some(u) ==> final(config).user@ == u@,
        user is None ==> final(config).user@ == old(config).user@,
{
    if let Some(u) = user {
        config.user = u;
    }
}

} // verus!
