//! Settings use cases.

use vstd::prelude::*;

verus! {

/// Input of managing the access key and the server settings.
#[derive(Debug, Clone, Default)]
pub struct ManageSettings {
    pub retention_days: Option<u32>,
    pub session_affinity: Option<bool>,
    pub rotate_access_key: bool,
}

/// Output of managing the settings.
#[derive(Debug, Clone)]
pub struct SettingsOutcome {
    pub listen: String,
    pub masked_access_key: String,
    pub granularity: String,
    pub retention_days: u32,
    pub session_affinity: bool,
    /// The new key in plain text when it was rotated; shown only this once.
    pub rotated_access_key: Option<String>,
}

} // verus!
