//! Use-case failures, in the grades that the inbound adapters answer with.
//!
//! Every domain error and port error is mapped to one grade explicitly; none
//! falls through to a weaker grade by a catch-all.

use vstd::prelude::*;

use crate::domain::errors::{
    catalog_error_text, credential_error_text, settings_error_text, CatalogError, CredentialError,
    RelayError, SettingsError,
};
use crate::domain::values::{invalid_value_text, Timestamp};
use crate::ports::outbound::{port_error_text, PortError};
use crate::text::{decimal, enclose, joined, push_decimal, push_joined, texts};

verus! {

/// The outcome of a use case.
pub type UseCaseResult<T> = Result<T, UseCaseError>;

/// The kind of entity a failure is about, for the message shown.
#[derive(Debug, Clone, Copy, PartialEq, Eq, Structural)]
pub enum Entity {
    Alias,
    CredentialGroup,
    Credential,
    Model,
}

pub open spec fn entity_label(e: Entity) -> Seq<char> {
    match e {
        Entity::Alias => "别名"@,
        Entity::CredentialGroup => "账号组"@,
        Entity::Credential => "凭证"@,
        Entity::Model => "模型"@,
    }
}

impl Entity {
    pub fn label(self) -> (r: &'static str)
        ensures
            r@ == entity_label(self),
    {
        match self {
            Entity::Alias => "别名",
            Entity::CredentialGroup => "账号组",
            Entity::Credential => "凭证",
            Entity::Model => "模型",
        }
    }
}

/// A failed use case.
#[derive(Debug, Clone, PartialEq, Eq)]
pub enum UseCaseError {
    /// The input is not valid.
    InvalidInput(String),
    /// A business rule refused.
    Domain(String),
    /// The concurrency limit is reached; worth another try soon.
    ConcurrencyLimited { retry_after_seconds: u64 },
    /// No credential is available; `recover_at` is the latest recovery among them.
    AllCredentialsUnavailable { attempted: Vec<String>, recover_at: Option<Timestamp> },
    /// The resource does not exist.
    NotFound { entity: Entity, name: String },
    /// Not authorized.
    Unauthorized,
    /// The upstream refused the call; its name goes into the error body.
    UpstreamFailed { provider: String, status: u16 },
    /// An outbound dependency failed.
    Port(PortError),
}

pub open spec fn use_case_error_text(e: UseCaseError) -> Seq<char> {
    match e {
        UseCaseError::InvalidInput(reason) => "输入不合法："@ + reason@,
        UseCaseError::Domain(reason) => "业务规则拒绝："@ + reason@,
        UseCaseError::ConcurrencyLimited { .. } => "并发已满"@,
        UseCaseError::AllCredentialsUnavailable { attempted, .. } => "全部凭证不可用，已尝试 "@
            + joined(texts(attempted@), "、"@),
        UseCaseError::NotFound { entity, name } => entity_label(entity) + " "@ + name@ + " 不存在"@,
        UseCaseError::Unauthorized => "未授权"@,
        UseCaseError::UpstreamFailed { provider, status } => "上游 "@ + provider@ + " 返回 "@
            + decimal(status as nat),
        UseCaseError::Port(inner) => port_error_text(inner),
    }
}

/// How a credential refusal is graded: a missing credential is not found; bad
/// input is invalid; every other refusal is a business rule; the message is
/// the refusal's own.
pub open spec fn graded_credential_error(e: CredentialError, u: UseCaseError) -> bool {
    match e {
        CredentialError::NotFound(name) => u matches UseCaseError::NotFound { entity, name: n }
            && entity == Entity::Credential && n@ == name@,
        CredentialError::UpstreamUnsupported(_)
        | CredentialError::AuthorizationInvalid
        | CredentialError::EmptySelection
        | CredentialError::Invalid(_) => u matches UseCaseError::InvalidInput(m) && m@
            == credential_error_text(e),
        _ => u matches UseCaseError::Domain(m) && m@ == credential_error_text(e),
    }
}

/// How a catalog refusal is graded.
pub open spec fn graded_catalog_error(e: CatalogError, u: UseCaseError) -> bool {
    match e {
        CatalogError::Duplicated(name) => u matches UseCaseError::Domain(m) && m@ == "别名 "@
            + name@ + " 已存在"@,
        CatalogError::NotFound(name) => u matches UseCaseError::NotFound { entity, name: n }
            && entity == Entity::Alias && n@ == name@,
        CatalogError::GroupNotFound(id) => u matches UseCaseError::NotFound { entity, name: n }
            && entity == Entity::CredentialGroup && n@ == id@,
        CatalogError::CredentialNotFound(id) => u matches UseCaseError::NotFound {
            entity,
            name: n,
        } && entity == Entity::Credential && n@ == id@,
        CatalogError::CredentialUnavailable(_) => u matches UseCaseError::Domain(m) && m@
            == catalog_error_text(e),
        CatalogError::Invalid(inner) => u matches UseCaseError::InvalidInput(m) && m@
            == invalid_value_text(inner),
    }
}

/// How a relay failure is graded: each has a grade of its own.
pub open spec fn graded_relay_error(e: RelayError, u: UseCaseError) -> bool {
    match e {
        RelayError::AliasNotFound(name) => u matches UseCaseError::NotFound { entity, name: n }
            && entity == Entity::Model && n@ == name@,
        RelayError::Unauthorized => u == UseCaseError::Unauthorized,
        RelayError::AllUnavailable { attempted, recover_at } => u
            == UseCaseError::AllCredentialsUnavailable { attempted, recover_at },
        RelayError::UpstreamFailed { provider, status } => u == UseCaseError::UpstreamFailed {
            provider,
            status,
        },
    }
}

/// Settings refusals are all invalid input.
pub open spec fn graded_settings_error(e: SettingsError, u: UseCaseError) -> bool {
    u matches UseCaseError::InvalidInput(m) && m@ == settings_error_text(e)
}

impl UseCaseError {
    pub fn not_found(entity: Entity, name: &str) -> (r: Self)
        ensures
            r matches UseCaseError::NotFound { entity: e, name: n } && e == entity && n@ == name@,
    {
        UseCaseError::NotFound { entity, name: name.to_owned() }
    }

    /// The message shown for this failure.
    pub fn to_string(&self) -> (r: String)
        ensures
            r@ == use_case_error_text(*self),
    {
        match self {
            UseCaseError::InvalidInput(reason) => {
                let mut out = String::from_str("输入不合法：");
                out.append(reason.as_str());
                out
            },
            UseCaseError::Domain(reason) => {
                let mut out = String::from_str("业务规则拒绝：");
                out.append(reason.as_str());
                out
            },
            UseCaseError::ConcurrencyLimited { .. } => String::from_str("并发已满"),
            UseCaseError::AllCredentialsUnavailable { attempted, .. } => {
                let mut out = String::from_str("全部凭证不可用，已尝试 ");
                push_joined(&mut out, attempted, "、");
                out
            },
            UseCaseError::NotFound { entity, name } => {
                let mut out = String::from_str(entity.label());
                out.append(" ");
                out.append(name.as_str());
                out.append(" 不存在");
                out
            },
            UseCaseError::Unauthorized => String::from_str("未授权"),
            UseCaseError::UpstreamFailed { provider, status } => {
                let mut out = enclose("上游 ", provider.as_str(), " 返回 ");
                push_decimal(&mut out, *status as u64);
                out
            },
            UseCaseError::Port(inner) => inner.to_string(),
        }
    }

    /// A port failure is carried as it is.
    pub fn from_port_error(value: PortError) -> (r: Self)
        ensures
            r == UseCaseError::Port(value),
    {
        UseCaseError::Port(value)
    }

    pub fn from_credential_error(value: CredentialError) -> (r: Self)
        ensures
            graded_credential_error(value, r),
    {
        match &value {
            CredentialError::Duplicated(_) => UseCaseError::Domain(value.to_string()),
            CredentialError::UpstreamUnsupported(_) => UseCaseError::InvalidInput(value.to_string()),
            CredentialError::UpstreamLacksSubscription(_) => UseCaseError::Domain(value.to_string()),
            CredentialError::AuthorizationExpired => UseCaseError::Domain(value.to_string()),
            CredentialError::AuthorizationInvalid => UseCaseError::InvalidInput(value.to_string()),
            CredentialError::NotAvailable(_) => UseCaseError::Domain(value.to_string()),
            CredentialError::Referenced(_) => UseCaseError::Domain(value.to_string()),
            CredentialError::NotFound(name) => UseCaseError::not_found(
                Entity::Credential,
                name.as_str(),
            ),
            CredentialError::ModelNotOffered(_) => UseCaseError::Domain(value.to_string()),
            CredentialError::EmptySelection => UseCaseError::InvalidInput(value.to_string()),
            CredentialError::Invalid(_) => UseCaseError::InvalidInput(value.to_string()),
        }
    }

    pub fn from_catalog_error(value: CatalogError) -> (r: Self)
        ensures
            graded_catalog_error(value, r),
    {
        match &value {
            CatalogError::Duplicated(name) => UseCaseError::Domain(
                enclose("别名 ", name.as_str(), " 已存在"),
            ),
            CatalogError::NotFound(name) => UseCaseError::not_found(Entity::Alias, name.as_str()),
            CatalogError::GroupNotFound(id) => UseCaseError::not_found(
                Entity::CredentialGroup,
                id.as_str(),
            ),
            CatalogError::CredentialNotFound(id) => UseCaseError::not_found(
                Entity::Credential,
                id.as_str(),
            ),
            CatalogError::CredentialUnavailable(_) => UseCaseError::Domain(value.to_string()),
            CatalogError::Invalid(inner) => UseCaseError::InvalidInput(inner.to_string()),
        }
    }

    pub fn from_relay_error(value: RelayError) -> (r: Self)
        ensures
            graded_relay_error(value, r),
    {
        match value {
            RelayError::AliasNotFound(name) => UseCaseError::not_found(Entity::Model, name.as_str()),
            RelayError::Unauthorized => UseCaseError::Unauthorized,
            RelayError::AllUnavailable { attempted, recover_at } => {
                UseCaseError::AllCredentialsUnavailable { attempted, recover_at }
            },
            RelayError::UpstreamFailed { provider, status } => UseCaseError::UpstreamFailed {
                provider,
                status,
            },
        }
    }

    pub fn from_settings_error(value: SettingsError) -> (r: Self)
        ensures
            graded_settings_error(value, r),
    {
        UseCaseError::InvalidInput(value.to_string())
    }
}

} // verus!
