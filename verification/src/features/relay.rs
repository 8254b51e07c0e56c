//! Relay use cases.

use vstd::prelude::*;

use crate::domain::values::Protocol;

verus! {

/// Input of invoking a model.
#[derive(Debug, Clone)]
pub struct InvokeModel {
    pub pool: String,
    pub protocol: Protocol,
    pub stream: bool,
    pub body: Vec<u8>,
}

/// Input of choosing a credential.
#[derive(Debug, Clone)]
pub struct SelectCredential {
    pub alias: String,
    pub session_id: Option<String>,
}

/// Output of choosing a credential.
#[derive(Debug, Clone)]
pub struct SelectedCredential {
    pub credential_id: String,
    pub affinity_hit: bool,
}

} // verus!
