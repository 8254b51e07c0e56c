//! Domain events.

use vstd::prelude::*;

use crate::domain::values::{CredentialId, GroupId, HealthStatus, Money, TokenUsage};

verus! {

/// What happened in the domain, for subscribers in other parts of the gateway.
#[derive(Debug, Clone, PartialEq, Eq)]
pub enum DomainEvent {
    CredentialRegistered { id: CredentialId, name: String, provider: String },
    CredentialHealthChanged { id: CredentialId, status: HealthStatus },
    CredentialDeleted { id: CredentialId },
    CredentialGroupRemoved { id: GroupId },
    UsageRecorded {
        credential_id: CredentialId,
        alias: String,
        tokens: TokenUsage,
        /// Empty when the call was not priced; zero for credentials that are not charged.
        cost: Option<Money>,
        succeeded: bool,
        latency_ms: u64,
        /// Why the call failed; `None` when it succeeded.
        failure_reason: Option<String>,
        affinity_hit: bool,
    },
}

pub open spec fn event_name(e: DomainEvent) -> Seq<char> {
    match e {
        DomainEvent::CredentialRegistered { .. } => "CredentialRegistered"@,
        DomainEvent::CredentialHealthChanged { .. } => "CredentialHealthChanged"@,
        DomainEvent::CredentialDeleted { .. } => "CredentialDeleted"@,
        DomainEvent::CredentialGroupRemoved { .. } => "CredentialGroupRemoved"@,
        DomainEvent::UsageRecorded { .. } => "UsageRecorded"@,
    }
}

impl DomainEvent {
    /// The event's name, as subscribers register for it.
    pub fn name(&self) -> (r: &'static str)
        ensures
            r@ == event_name(*self),
    {
        match self {
            DomainEvent::CredentialRegistered { .. } => "CredentialRegistered",
            DomainEvent::CredentialHealthChanged { .. } => "CredentialHealthChanged",
            DomainEvent::CredentialDeleted { .. } => "CredentialDeleted",
            DomainEvent::CredentialGroupRemoved { .. } => "CredentialGroupRemoved",
            DomainEvent::UsageRecorded { .. } => "UsageRecorded",
        }
    }
}

} // verus!
