//! Write-side values, and the synchronous outbound ports.

use vstd::prelude::*;

use crate::domain::values::{CredentialId, Protocol, Provider, Secret, Timestamp, UpstreamModelId};
use crate::ports::outbound::PortError;

verus! {

/// The binding of a session to a credential.
#[derive(Debug, Clone, PartialEq, Eq)]
pub struct SessionBinding {
    pub session_id: String,
    pub credential_id: CredentialId,
    pub expires_at: Timestamp,
}

/// Access keys: hashing and checking are the adapter's; plain text is never stored.
pub trait AccessKeyVerifier: Send + Sync {
    /// A new key in plain text, returned only this once.
    fn generate(&self) -> String;

    fn hash(&self, plaintext: &str) -> Result<String, PortError>;

    fn verify(&self, plaintext: &str, hash: &str) -> Result<bool, PortError>;
}

/// The layered time limits of one upstream call, each on its own.
#[derive(Debug, Clone, Copy, PartialEq, Eq, Structural)]
pub struct UpstreamTimeouts {
    /// To establish the connection.
    pub connect_seconds: u64,
    /// To the first byte.
    pub first_byte_seconds: u64,
    /// Between two reads.
    pub read_seconds: u64,
    /// For the whole call.
    pub total_seconds: u64,
}

/// Input of one upstream call; the only place where a secret is in plain text.
#[derive(Clone)]
pub struct UpstreamCall {
    pub provider: Provider,
    pub secret: Secret,
    pub protocol: Protocol,
    pub upstream_model: UpstreamModelId,
    pub timeouts: UpstreamTimeouts,
    pub body: Vec<u8>,
    pub stream: bool,
}

/// An upstream's response.
#[derive(Debug, Clone)]
pub struct UpstreamResponse {
    pub status: u16,
    pub body: Vec<u8>,
    /// How long the upstream asks to wait before trying again.
    pub retry_after_seconds: Option<u64>,
    /// The quota is used up; trying again will not help.
    pub quota_exhausted: bool,
    /// The upstream's rate-limit headers, passed on to the client as they are.
    pub rate_limit_headers: Vec<(String, String)>,
}

/// Subscription tokens obtained from the upstream.
#[derive(Clone)]
pub struct ExchangedToken {
    pub access_token: Secret,
    pub refresh_token: Secret,
    pub expires_at: Timestamp,
    pub account: Option<String>,
}

/// An envelope-encrypted secret: the wrapped data key is kept apart from the ciphertext.
#[derive(Debug, Clone, PartialEq, Eq)]
pub struct SealedSecret {
    pub wrapped_key: String,
    pub nonce: String,
    pub ciphertext: String,
}

/// Secret encryption: `seal` makes a new data key each time, `open` unwraps it.
pub trait SecretCipher: Send + Sync {
    fn seal(&self, plaintext: &str) -> Result<SealedSecret, PortError>;

    fn open(&self, sealed: &SealedSecret) -> Result<Secret, PortError>;
}

} // verus!
