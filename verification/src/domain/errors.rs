//! Domain errors.

use vstd::prelude::*;

use crate::domain::values::{invalid_value_text, InvalidValue, Timestamp};
use crate::text::{decimal, enclose, joined, push_decimal, push_joined, texts};

verus! {

/// Refusals of the credential rules.
#[derive(Debug, Clone, PartialEq, Eq)]
pub enum CredentialError {
    Duplicated(String),
    UpstreamUnsupported(String),
    UpstreamLacksSubscription(String),
    AuthorizationExpired,
    AuthorizationInvalid,
    NotAvailable(String),
    Referenced(String),
    NotFound(String),
    ModelNotOffered(String),
    EmptySelection,
    Invalid(InvalidValue),
}

pub open spec fn credential_error_text(e: CredentialError) -> Seq<char> {
    match e {
        CredentialError::Duplicated(name) => "凭证 "@ + name@ + " 已存在"@,
        CredentialError::UpstreamUnsupported(name) => "上游 "@ + name@ + " 不受支持"@,
        CredentialError::UpstreamLacksSubscription(name) => "上游 "@ + name@ + " 不支持订阅授权"@,
        CredentialError::AuthorizationExpired => "授权已过期"@,
        CredentialError::AuthorizationInvalid => "授权状态无效"@,
        CredentialError::NotAvailable(name) => "凭证 "@ + name@ + " 当前不可用"@,
        CredentialError::Referenced(name) => "凭证 "@ + name@ + " 仍被模型别名引用"@,
        CredentialError::NotFound(name) => "凭证 "@ + name@ + " 不存在"@,
        CredentialError::ModelNotOffered(name) => "模型 "@ + name@ + " 不在上游清单中"@,
        CredentialError::EmptySelection => "至少保留一个模型"@,
        CredentialError::Invalid(inner) => invalid_value_text(inner),
    }
}

impl CredentialError {
    /// The message shown for this refusal.
    pub fn to_string(&self) -> (r: String)
        ensures
            r@ == credential_error_text(*self),
    {
        match self {
            CredentialError::Duplicated(name) => enclose("凭证 ", name.as_str(), " 已存在"),
            CredentialError::UpstreamUnsupported(name) => enclose(
                "上游 ",
                name.as_str(),
                " 不受支持",
            ),
            CredentialError::UpstreamLacksSubscription(name) => enclose(
                "上游 ",
                name.as_str(),
                " 不支持订阅授权",
            ),
            CredentialError::AuthorizationExpired => String::from_str("授权已过期"),
            CredentialError::AuthorizationInvalid => String::from_str("授权状态无效"),
            CredentialError::NotAvailable(name) => enclose("凭证 ", name.as_str(), " 当前不可用"),
            CredentialError::Referenced(name) => enclose(
                "凭证 ",
                name.as_str(),
                " 仍被模型别名引用",
            ),
            CredentialError::NotFound(name) => enclose("凭证 ", name.as_str(), " 不存在"),
            CredentialError::ModelNotOffered(name) => enclose(
                "模型 ",
                name.as_str(),
                " 不在上游清单中",
            ),
            CredentialError::EmptySelection => String::from_str("至少保留一个模型"),
            CredentialError::Invalid(inner) => inner.to_string(),
        }
    }
}

/// Refusals of the model catalog.
#[derive(Debug, Clone, PartialEq, Eq)]
pub enum CatalogError {
    Duplicated(String),
    NotFound(String),
    GroupNotFound(String),
    CredentialNotFound(String),
    CredentialUnavailable(String),
    Invalid(InvalidValue),
}

pub open spec fn catalog_error_text(e: CatalogError) -> Seq<char> {
    match e {
        CatalogError::Duplicated(name) => "模型别名 "@ + name@ + " 已存在"@,
        CatalogError::NotFound(name) => "模型别名 "@ + name@ + " 不存在"@,
        CatalogError::GroupNotFound(id) => "账号组 "@ + id@ + " 不存在"@,
        CatalogError::CredentialNotFound(id) => "凭证 "@ + id@ + " 不存在"@,
        CatalogError::CredentialUnavailable(name) => "凭证 "@ + name@ + " 不可用"@,
        CatalogError::Invalid(inner) => invalid_value_text(inner),
    }
}

impl CatalogError {
    /// The message shown for this refusal.
    pub fn to_string(&self) -> (r: String)
        ensures
            r@ == catalog_error_text(*self),
    {
        match self {
            CatalogError::Duplicated(name) => enclose("模型别名 ", name.as_str(), " 已存在"),
            CatalogError::NotFound(name) => enclose("模型别名 ", name.as_str(), " 不存在"),
            CatalogError::GroupNotFound(id) => enclose("账号组 ", id.as_str(), " 不存在"),
            CatalogError::CredentialNotFound(id) => enclose("凭证 ", id.as_str(), " 不存在"),
            CatalogError::CredentialUnavailable(name) => enclose("凭证 ", name.as_str(), " 不可用"),
            CatalogError::Invalid(inner) => inner.to_string(),
        }
    }
}

/// Failures of relaying a model call.
#[derive(Debug, Clone, PartialEq, Eq)]
pub enum RelayError {
    AliasNotFound(String),
    Unauthorized,
    AllUnavailable { attempted: Vec<String>, recover_at: Option<Timestamp> },
    UpstreamFailed { provider: String, status: u16 },
}

pub open spec fn relay_error_text(e: RelayError) -> Seq<char> {
    match e {
        RelayError::AliasNotFound(name) => "模型 "@ + name@ + " 不存在"@,
        RelayError::Unauthorized => "未授权"@,
        RelayError::AllUnavailable { attempted, .. } => "全部凭证不可用，已尝试 "@ + joined(
            texts(attempted@),
            "、"@,
        ),
        RelayError::UpstreamFailed { provider, status } => "上游 "@ + provider@ + " 返回 "@
            + decimal(status as nat),
    }
}

impl RelayError {
    /// The message shown for this failure.
    pub fn to_string(&self) -> (r: String)
        ensures
            r@ == relay_error_text(*self),
    {
        match self {
            RelayError::AliasNotFound(name) => enclose("模型 ", name.as_str(), " 不存在"),
            RelayError::Unauthorized => String::from_str("未授权"),
            RelayError::AllUnavailable { attempted, .. } => {
                let mut out = String::from_str("全部凭证不可用，已尝试 ");
                push_joined(&mut out, attempted, "、");
                out
            },
            RelayError::UpstreamFailed { provider, status } => {
                let mut out = enclose("上游 ", provider.as_str(), " 返回 ");
                push_decimal(&mut out, *status as u64);
                out
            },
        }
    }
}

/// Refusals of the settings rules.
#[derive(Debug, Clone, PartialEq, Eq)]
pub enum SettingsError {
    RetentionInvalid(String),
    Invalid(InvalidValue),
}

pub open spec fn settings_error_text(e: SettingsError) -> Seq<char> {
    match e {
        SettingsError::RetentionInvalid(value) => "保留期 "@ + value@ + " 取值非法"@,
        SettingsError::Invalid(inner) => invalid_value_text(inner),
    }
}

impl SettingsError {
    /// The message shown for this refusal.
    pub fn to_string(&self) -> (r: String)
        ensures
            r@ == settings_error_text(*self),
    {
        match self {
            SettingsError::RetentionInvalid(value) => enclose("保留期 ", value.as_str(), " 取值非法"),
            SettingsError::Invalid(inner) => inner.to_string(),
        }
    }
}

/// Why a pending subscription authorization could not be consumed.
#[derive(Debug, Clone, Copy, PartialEq, Eq, Structural)]
pub enum AuthorizationError {
    Invalid,
    Expired,
}

} // verus!
