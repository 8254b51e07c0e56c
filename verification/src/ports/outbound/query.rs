//! Read-side inputs and projections.

use vstd::prelude::*;

use crate::domain::values::{CredentialId, Money};

verus! {

/// Filter of the credential list.
#[derive(Debug, Clone, Default)]
pub struct CredentialFilter {
    pub provider: Option<String>,
}

/// Filter of the request log.
#[derive(Debug, Clone, Default)]
pub struct RequestLogFilter {
    pub alias: Option<String>,
    pub credential: Option<String>,
    pub only_failed: bool,
}

/// The cost summed per credential, as storage reports it.
#[derive(Debug, Clone, PartialEq, Eq)]
pub struct CredentialCostView {
    pub credential_id: CredentialId,
    pub cost: Money,
}

} // verus!
