//! Credential use cases.

use vstd::prelude::*;

verus! {

/// Input of enabling or disabling a credential.
#[derive(Debug, Clone)]
pub struct ChangeCredentialHealth {
    pub credential_id: String,
    pub enabled: bool,
}

/// Input of completing a subscription authorization.
#[derive(Debug, Clone)]
pub struct CompleteSubscriptionAuthorization {
    pub state: String,
    pub code: String,
}

/// Input of configuring a credential group.
#[derive(Debug, Clone)]
pub struct ConfigureCredentialGroup {
    pub group_id: String,
    pub strategy: String,
}

/// Input of fetching the models an upstream offers.
#[derive(Debug, Clone)]
pub struct FetchUpstreamModels {
    pub credential_id: String,
}

/// Output of fetching the models an upstream offers.
#[derive(Debug, Clone)]
pub struct OfferedModels {
    pub models: Vec<String>,
    pub kept: Vec<String>,
}

/// Input of registering an API key.
#[derive(Debug, Clone)]
pub struct RegisterApiKeyCredential {
    pub name: String,
    pub provider: String,
    pub secret: String,
}

/// Input of starting a subscription authorization.
#[derive(Debug, Clone)]
pub struct StartSubscriptionAuthorization {
    pub provider: String,
}

/// Output of starting a subscription authorization.
#[derive(Debug, Clone)]
pub struct AuthorizationUrl {
    pub url: String,
}

/// Input of choosing the models to keep.
#[derive(Debug, Clone)]
pub struct UpdateCredentialModels {
    pub credential_id: String,
    pub models: Vec<String>,
}

/// Input of reading one credential.
#[derive(Debug, Clone)]
pub struct GetCredential {
    pub credential_id: String,
}

/// Input of listing credentials.
#[derive(Debug, Clone, Default)]
pub struct ListCredentials {
    pub provider: Option<String>,
}

} // verus!
