//! Inbound ports.
//!
//! Inbound adapters only turn a protocol payload into a command or a
//! query and hand it to its handler; the handler's signature is the port.

use vstd::prelude::*;

use crate::domain::errors::{
    catalog_error_text, credential_error_text, relay_error_text, settings_error_text, CatalogError,
    CredentialError, RelayError, SettingsError,
};
use crate::domain::values::invalid_value_text;
use crate::ports::outbound::{port_error_text, PortError};
use crate::text::{enclose, joined, push_joined, texts};

verus! {

/// The outcome of a use case.
pub type UseCaseResult<T> = Result<T, UseCaseError>;

/// A failed use case, in the grades that adapters can answer with.
#[derive(Debug, Clone, PartialEq, Eq)]
pub enum UseCaseError {
    /// The input is not valid.
    InvalidInput(String),
    /// A business rule refused.
    Domain(String),
    /// The concurrency limit is reached; worth another try soon.
    ConcurrencyLimited { retry_after_seconds: u64 },
    /// No credential is available.
    AllCredentialsUnavailable { attempted: Vec<String>, retry_after_seconds: Option<u64> },
    /// The resource does not exist.
    NotFound(String),
    /// Not authorized.
    Unauthorized,
    /// An outbound dependency failed.
    Port(PortError),
}

pub open spec fn inbound_error_text(e: UseCaseError) -> Seq<char> {
    match e {
        UseCaseError::InvalidInput(reason) => "输入不合法："@ + reason@,
        UseCaseError::Domain(reason) => "业务规则拒绝："@ + reason@,
        UseCaseError::ConcurrencyLimited { .. } => "并发已满"@,
        UseCaseError::AllCredentialsUnavailable { attempted, .. } => "全部凭证不可用，已尝试 "@
            + joined(texts(attempted@), "、"@),
        UseCaseError::NotFound(name) => name@ + " 不存在"@,
        UseCaseError::Unauthorized => "未授权"@,
        UseCaseError::Port(inner) => port_error_text(inner),
    }
}

/// How a credential refusal is graded at the inbound port.
pub open spec fn inbound_credential_error(e: CredentialError, u: UseCaseError) -> bool {
    match e {
        CredentialError::NotFound(name) => u matches UseCaseError::NotFound(m) && m@ == "凭证 "@
            + name@,
        CredentialError::Invalid(inner) => u matches UseCaseError::InvalidInput(m) && m@
            == invalid_value_text(inner),
        _ => u matches UseCaseError::Domain(m) && m@ == credential_error_text(e),
    }
}

/// How a catalog refusal is graded at the inbound port.
pub open spec fn inbound_catalog_error(e: CatalogError, u: UseCaseError) -> bool {
    match e {
        CatalogError::NotFound(name) => u matches UseCaseError::NotFound(m) && m@ == name@,
        CatalogError::GroupNotFound(name) => u matches UseCaseError::NotFound(m) && m@ == name@,
        CatalogError::Duplicated(name) => u matches UseCaseError::Domain(m) && m@ == "别名 "@
            + name@ + " 已存在"@,
        CatalogError::Invalid(inner) => u matches UseCaseError::InvalidInput(m) && m@
            == invalid_value_text(inner),
        _ => u matches UseCaseError::Domain(m) && m@ == catalog_error_text(e),
    }
}

/// How a relay failure is graded at the inbound port.
pub open spec fn inbound_relay_error(e: RelayError, u: UseCaseError) -> bool {
    match e {
        RelayError::Unauthorized => u == UseCaseError::Unauthorized,
        RelayError::AliasNotFound(name) => u matches UseCaseError::NotFound(m) && m@ == "模型 "@
            + name@,
        RelayError::AllUnavailable { attempted, .. } => u
            == UseCaseError::AllCredentialsUnavailable { attempted, retry_after_seconds: None },
        _ => u matches UseCaseError::Domain(m) && m@ == relay_error_text(e),
    }
}

/// How a settings refusal is graded at the inbound port.
pub open spec fn inbound_settings_error(e: SettingsError, u: UseCaseError) -> bool {
    match e {
        SettingsError::Invalid(inner) => u matches UseCaseError::InvalidInput(m) && m@
            == invalid_value_text(inner),
        _ => u matches UseCaseError::Domain(m) && m@ == settings_error_text(e),
    }
}

impl UseCaseError {
    /// The message shown for this failure.
    pub fn to_string(&self) -> (r: String)
        ensures
            r@ == inbound_error_text(*self),
    {
        match self {
            UseCaseError::InvalidInput(reason) => {
                let mut out = String::from_str("输入不合法：");
                out.append(reason.as_str());
                out
            },
            UseCaseError::Domain(reason) => {
                let mut out = String::from_str("业务规则拒绝：");
                out.append(reason.as_str());
                out
            },
            UseCaseError::ConcurrencyLimited { .. } => String::from_str("并发已满"),
            UseCaseError::AllCredentialsUnavailable { attempted, .. } => {
                let mut out = String::from_str("全部凭证不可用，已尝试 ");
                push_joined(&mut out, attempted, "、");
                out
            },
            UseCaseError::NotFound(name) => {
                let mut out = String::from_str(name.as_str());
                out.append(" 不存在");
                out
            },
            UseCaseError::Unauthorized => String::from_str("未授权"),
            UseCaseError::Port(inner) => inner.to_string(),
        }
    }

    /// A port failure is carried as it is.
    pub fn from_port_error(value: PortError) -> (r: Self)
        ensures
            r == UseCaseError::Port(value),
    {
        UseCaseError::Port(value)
    }

    pub fn from_credential_error(value: CredentialError) -> (r: Self)
        ensures
            inbound_credential_error(value, r),
    {
        match &value {
            CredentialError::NotFound(name) => {
                let mut m = String::from_str("凭证 ");
                m.append(name.as_str());
                UseCaseError::NotFound(m)
            },
            CredentialError::Invalid(inner) => UseCaseError::InvalidInput(inner.to_string()),
            _ => UseCaseError::Domain(value.to_string()),
        }
    }

    pub fn from_catalog_error(value: CatalogError) -> (r: Self)
        ensures
            inbound_catalog_error(value, r),
    {
        match &value {
            CatalogError::NotFound(name) => UseCaseError::NotFound(name.clone()),
            CatalogError::GroupNotFound(name) => UseCaseError::NotFound(name.clone()),
            CatalogError::Duplicated(name) => UseCaseError::Domain(
                enclose("别名 ", name.as_str(), " 已存在"),
            ),
            CatalogError::Invalid(inner) => UseCaseError::InvalidInput(inner.to_string()),
            _ => UseCaseError::Domain(value.to_string()),
        }
    }

    pub fn from_relay_error(value: RelayError) -> (r: Self)
        ensures
            inbound_relay_error(value, r),
    {
        match value {
            RelayError::Unauthorized => UseCaseError::Unauthorized,
            RelayError::AliasNotFound(name) => {
                let mut m = String::from_str("模型 ");
                m.append(name.as_str());
                UseCaseError::NotFound(m)
            },
            RelayError::AllUnavailable { attempted, .. } => UseCaseError::AllCredentialsUnavailable {
                attempted,
                retry_after_seconds: None,
            },
            other => UseCaseError::Domain(other.to_string()),
        }
    }

    pub fn from_settings_error(value: SettingsError) -> (r: Self)
        ensures
            inbound_settings_error(value, r),
    {
        match &value {
            SettingsError::Invalid(inner) => UseCaseError::InvalidInput(inner.to_string()),
            _ => UseCaseError::Domain(value.to_string()),
        }
    }
}

} // verus!
