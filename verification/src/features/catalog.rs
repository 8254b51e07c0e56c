//! Model catalog use cases.

use vstd::prelude::*;

verus! {

/// Input of creating an alias (or adding a target to it).
#[derive(Debug, Clone)]
pub struct CreateAlias {
    pub name: String,
    pub strategy: String,
    pub credential_id: String,
    pub upstream_model: String,
    pub weight: u32,
    pub priority: u16,
}

} // verus!
