//! Further checks of the domain rules on concrete values.

use gateway::domain::aggregates::{
    Alias, AliasTarget, Credential, CredentialGroup, CredentialKind, Settings, SupportedUpstreams,
    UsageEntry, UsageRecord,
};
use gateway::domain::canonical::{ContentBlock, Message, Role, TranslationError};
use gateway::domain::errors::{CatalogError, CredentialError, RelayError, SettingsError};
use gateway::domain::events::DomainEvent;
use gateway::domain::values::{
    AliasName, AliasTargetId, CredentialId, GroupId, HealthStatus, InvalidValue, Money, Priority,
    Protocol, Provider, Secret, Timestamp, TokenUsage, UpstreamModelId, Weight,
};
use gateway::error::{Entity, UseCaseError};
use gateway::ports::inbound::UseCaseError as InboundError;
use gateway::ports::outbound::PortError;
use gateway::text::{is_blank, same_text};

fn ts(secs: i64) -> Timestamp {
    Timestamp::new(secs, 0)
}

fn model(name: &str) -> UpstreamModelId {
    UpstreamModelId::new(name).unwrap()
}

fn key_credential() -> Credential {
    Credential::register_api_key(
        CredentialId::new("c1"),
        "main",
        Provider::new("DeepSeek").unwrap(),
        Secret::new("sk-0123456789").unwrap(),
    )
    .unwrap()
    .0
}

fn weighted(id: &str, group: &str, weight: u32, priority: u16) -> AliasTarget {
    let mut t = AliasTarget::new(
        AliasTargetId::new(id),
        GroupId::new(group),
        model("m"),
        Protocol::OpenAiChat,
    );
    t.tune(Weight::new(weight), Priority::new(priority).unwrap());
    t
}

#[test]
fn mask_hides_short_secrets_entirely() {
    assert_eq!(Secret::new("abc").unwrap().mask(), "•••");
    assert_eq!(Secret::new("12345678").unwrap().mask(), "••••••••");
}

#[test]
fn mask_keeps_four_characters_at_each_end() {
    assert_eq!(Secret::new("123456789").unwrap().mask(), "1234••••••6789");
    assert_eq!(
        Secret::new("密钥密钥密钥密钥密钥").unwrap().mask(),
        "密钥密钥••••••密钥密钥"
    );
}

#[test]
fn blank_means_only_unicode_white_space() {
    assert!(is_blank(""));
    assert!(is_blank(" \t\n\u{3000}\u{a0}"));
    assert!(!is_blank("\u{200b}"));
    assert!(!is_blank("  x "));
    assert_eq!(AliasName::new("\u{3000}"), Err(InvalidValue::Blank("别名")));
    assert_eq!(Provider::new(" ").unwrap_err(), InvalidValue::Blank("上游"));
    assert_eq!(UpstreamModelId::new("").unwrap_err(), InvalidValue::Blank("上游模型"));
    assert!(Secret::new("\t").is_err());
}

#[test]
fn same_text_compares_exactly() {
    assert!(same_text("OpenAI", "OpenAI"));
    assert!(!same_text("OpenAI", "openai"));
    assert!(!same_text("Open", "OpenAI"));
}

#[test]
fn providers_know_their_protocol_and_subscriptions() {
    let anthropic = Provider::new("Anthropic").unwrap();
    assert_eq!(anthropic.default_protocol(), Protocol::AnthropicMessages);
    assert!(anthropic.supports_subscription());
    assert_eq!(Provider::new("Gemini").unwrap().default_protocol(), Protocol::Gemini);
    let deepseek = Provider::new("DeepSeek").unwrap();
    assert_eq!(deepseek.default_protocol(), Protocol::OpenAiChat);
    assert!(!deepseek.supports_subscription());
    assert!(SupportedUpstreams::contains(&deepseek));
    assert!(!SupportedUpstreams::contains(&Provider::new("Mistral").unwrap()));
    assert_eq!(Protocol::OpenAiResponses.label(), "OpenAI Responses");
}

#[test]
fn group_id_folds_ascii_case_only() {
    assert_eq!(GroupId::for_provider(&Provider::new("Open AI").unwrap()).as_str(), "g-open ai");
    assert_eq!(GroupId::for_provider(&Provider::new("ÄBC").unwrap()).as_str(), "g-Äbc");
    assert_eq!(
        GroupId::for_provider(&Provider::new("OPENAI").unwrap()),
        GroupId::for_provider(&Provider::new("openai").unwrap())
    );
}

#[test]
fn priority_is_never_zero() {
    assert_eq!(Priority::new(0), Err(InvalidValue::OutOfRange("优先级")));
    assert_eq!(Priority::new(7).unwrap().value(), 7);
    assert_eq!(Priority::default().value(), 1);
    assert!(!Weight::new(0).is_participating());
    assert_eq!(Weight::default().value(), 1);
}

#[test]
fn registration_refuses_unsupported_upstreams() {
    let result = Credential::register_api_key(
        CredentialId::new("c1"),
        "x",
        Provider::new("Mistral").unwrap(),
        Secret::new("k").unwrap(),
    );
    assert!(matches!(result, Err(CredentialError::UpstreamUnsupported(p)) if p == "Mistral"));
}

#[test]
fn registration_announces_the_credential() {
    let (credential, event) = Credential::register_subscription(
        CredentialId::new("c7"),
        "plus",
        Provider::new("Anthropic").unwrap(),
        Secret::new("a").unwrap(),
        Secret::new("r").unwrap(),
        ts(100),
        None,
    )
    .unwrap();
    assert_eq!(
        event,
        DomainEvent::CredentialRegistered {
            id: CredentialId::new("c7"),
            name: "plus".to_string(),
            provider: "Anthropic".to_string(),
        }
    );
    assert_eq!(credential.next_refresh_at(), Some(ts(100)));
    assert_eq!(credential.group().as_str(), "g-anthropic");
    assert_eq!(credential.masked_secret(), "oauth •••• 已授权");
    assert!(credential.kind().is_subscription());
    assert_eq!(credential.priority().value(), 1);
    assert_eq!(credential.weight().value(), 1);
}

#[test]
fn the_first_model_not_offered_is_named_and_nothing_changes() {
    let mut credential = key_credential();
    credential.record_offered_models(vec![model("a"), model("b")]).unwrap();
    credential.update_kept_models(vec![model("b")]).unwrap();

    let result = credential.update_kept_models(vec![model("a"), model("x"), model("y")]);

    assert_eq!(result, Err(CredentialError::ModelNotOffered("x".to_string())));
    assert_eq!(credential.kept_models(), &[model("b")]);
}

#[test]
fn recording_the_same_offer_twice_changes_nothing() {
    let mut credential = key_credential();
    credential.record_offered_models(vec![model("a"), model("b"), model("c")]).unwrap();
    credential.update_kept_models(vec![model("c"), model("a")]).unwrap();
    credential.record_offered_models(vec![model("a"), model("c")]).unwrap();
    let kept = credential.kept_models().to_vec();

    credential.record_offered_models(vec![model("a"), model("c")]).unwrap();

    assert_eq!(credential.kept_models(), kept.as_slice());
    assert_eq!(kept, vec![model("c"), model("a")]);
    assert_eq!(credential.offered_models(), &[model("a"), model("c")]);
}

#[test]
fn an_offer_without_kept_models_is_always_taken() {
    let mut credential = key_credential();
    assert!(credential.record_offered_models(vec![]).is_ok());
    assert!(credential.record_offered_models(vec![model("a")]).is_ok());
    assert_eq!(credential.offered_models(), &[model("a")]);
    assert!(credential.kept_models().is_empty());
}

#[test]
fn health_changes_are_announced_with_the_new_status() {
    let mut credential = key_credential();
    let event = credential.mark_failed("boom");
    assert_eq!(
        event,
        DomainEvent::CredentialHealthChanged {
            id: CredentialId::new("c1"),
            status: HealthStatus::Failed { reason: "boom".to_string() },
        }
    );
    assert!(credential.health().is_failed());
    assert_eq!(
        credential.ensure_available_for_fetch(),
        Err(CredentialError::NotAvailable("main".to_string()))
    );
}

#[test]
fn only_a_cooldown_recovers_and_only_once_it_ran_out() {
    let mut credential = key_credential();
    assert!(credential.recover_from_cooldown(ts(10)).is_none());
    credential.disable();
    assert!(credential.recover_from_cooldown(ts(10)).is_none());
    assert_eq!(credential.health(), &HealthStatus::Disabled);

    credential.mark_cooling("429", Timestamp::new(50, 500));
    assert!(credential.recover_from_cooldown(Timestamp::new(50, 499)).is_none());
    assert!(credential.recover_from_cooldown(Timestamp::new(50, 500)).is_some());
    assert!(credential.is_available());
}

#[test]
fn a_recovered_status_stays_recovered_later() {
    let cooling = HealthStatus::Cooling { reason: "429".to_string(), recover_at: ts(20) };
    assert_eq!(cooling.recovered_after_cooldown(ts(19)), cooling);
    assert_eq!(cooling.recovered_after_cooldown(ts(20)), HealthStatus::Ready);
    assert_eq!(cooling.recovered_after_cooldown(ts(99)), HealthStatus::Ready);
    assert_eq!(HealthStatus::Disabled.recovered_after_cooldown(ts(99)), HealthStatus::Disabled);
}

#[test]
fn a_postponed_refresh_never_passes_the_expiry() {
    let (mut credential, _) = Credential::register_subscription(
        CredentialId::new("c2"),
        "plus",
        Provider::new("OpenAI").unwrap(),
        Secret::new("a").unwrap(),
        Secret::new("r").unwrap(),
        ts(100),
        Some("acct".to_string()),
    )
    .unwrap();
    assert!(credential.on_refresh_failed(ts(10), ts(500)).is_none());
    assert_eq!(credential.next_refresh_at(), Some(ts(100)));
    assert!(credential.on_refresh_failed(ts(10), ts(40)).is_none());
    assert_eq!(credential.next_refresh_at(), Some(ts(40)));
    assert!(credential.on_refresh_failed(ts(100), ts(140)).is_some());
    assert_eq!(credential.next_refresh_at(), None);
    assert_eq!(credential.health(), &HealthStatus::Failed { reason: "刷新失败".to_string() });
}

#[test]
fn a_failed_refresh_of_an_api_key_fails_it() {
    let mut credential = key_credential();
    assert!(credential.on_refresh_failed(ts(1), ts(2)).is_some());
    assert!(credential.health().is_failed());
}

#[test]
fn a_refresh_replaces_the_tokens_and_keeps_the_account() {
    let (mut credential, _) = Credential::register_subscription(
        CredentialId::new("c2"),
        "plus",
        Provider::new("OpenAI").unwrap(),
        Secret::new("a").unwrap(),
        Secret::new("r").unwrap(),
        ts(100),
        Some("acct".to_string()),
    )
    .unwrap();
    credential.mark_failed("x");
    credential.apply_refresh(Secret::new("a2").unwrap(), Secret::new("r2").unwrap(), ts(300));
    match credential.kind() {
        CredentialKind::Subscription { access_token, refresh_token, expires_at, account } => {
            assert_eq!(access_token.expose(), "a2");
            assert_eq!(refresh_token.expose(), "r2");
            assert_eq!(*expires_at, ts(300));
            assert_eq!(account.as_deref(), Some("acct"));
        }
        CredentialKind::ApiKey { .. } => panic!("kind changed"),
    }
    assert!(credential.is_available());

    let mut key = key_credential();
    key.apply_refresh(Secret::new("a2").unwrap(), Secret::new("r2").unwrap(), ts(300));
    assert!(!key.kind().is_subscription());
    assert_eq!(key.next_refresh_at(), Some(ts(300)));
}

#[test]
fn weighted_choice_walks_the_best_pool() {
    let mut alias = Alias::create(AliasName::new("a").unwrap(), weighted("t1", "g1", 2, 1));
    alias.add_target(weighted("t2", "g1", 0, 1));
    alias.add_target(weighted("t3", "g2", 3, 1));
    alias.add_target(weighted("t4", "g2", 5, 2));

    assert_eq!(alias.participating_weight(), 5);
    let picked = |p: u64| alias.pick_target(p).map(|t| t.id().as_str().to_string());
    assert_eq!(picked(0).as_deref(), Some("t1"));
    assert_eq!(picked(1).as_deref(), Some("t1"));
    assert_eq!(picked(2).as_deref(), Some("t3"));
    assert_eq!(picked(4).as_deref(), Some("t3"));
    assert_eq!(picked(5), None);
}

#[test]
fn weighted_choice_needs_a_participating_target() {
    let mut alias = Alias::create(AliasName::new("a").unwrap(), weighted("t1", "g1", 0, 1));
    alias.add_target(weighted("t2", "g1", 0, 3));
    assert_eq!(alias.participating_weight(), 0);
    assert!(alias.pick_target(0).is_none());

    alias.add_target(weighted("t3", "g1", 4, 9));
    assert_eq!(alias.participating_weight(), 4);
    assert_eq!(alias.pick_target(3).map(|t| t.id().as_str()), Some("t3"));
}

#[test]
fn removing_a_group_keeps_the_others_in_order() {
    let mut alias = Alias::create(AliasName::new("a").unwrap(), weighted("t1", "g1", 1, 1));
    alias.add_target(weighted("t2", "g2", 1, 1));
    alias.add_target(weighted("t3", "g1", 1, 1));
    alias.add_target(weighted("t4", "g3", 1, 1));

    assert!(!alias.remove_group_targets(&GroupId::new("g1")));
    let ids: Vec<&str> = alias.targets().iter().map(|t| t.id().as_str()).collect();
    assert_eq!(ids, vec!["t2", "t4"]);
    assert!(alias.references_group(&GroupId::new("g2")));
    assert!(alias.references_group(&GroupId::new("g3")));
    assert!(!alias.references_group(&GroupId::new("g1")));

    assert!(!alias.remove_group_targets(&GroupId::new("g1")));
    assert_eq!(alias.targets().len(), 2);
    assert_eq!(alias.name().as_str(), "a");
}

#[test]
fn concurrency_is_at_least_one() {
    let mut group = CredentialGroup::for_provider(Provider::new("OpenAI").unwrap());
    assert_eq!(group.max_concurrency(), 4);
    assert_eq!(group.id().as_str(), "g-openai");
    group.set_max_concurrency(0);
    assert_eq!(group.max_concurrency(), 1);
    group.set_max_concurrency(9);
    assert_eq!(group.max_concurrency(), 9);
    assert_eq!(group.clone().remove(), DomainEvent::CredentialGroupRemoved { id: GroupId::new("g-openai") });
}

#[test]
fn zero_retention_is_refused_with_its_value() {
    let mut settings = Settings::initialize("0.0.0.0:8080", "hash");
    assert_eq!(settings.update_retention(0), Err(SettingsError::RetentionInvalid("0 天".to_string())));
    settings.update_session_affinity(false);
    settings.rotate_access_key("hash-2");
    assert!(!settings.session_affinity());
    assert_eq!(settings.access_key_hash(), "hash-2");
    assert_eq!(settings.listen(), "0.0.0.0:8080");
    assert_eq!(settings.retention_days(), 90);
}

#[test]
fn usage_records_keep_the_entry_and_announce_the_cost() {
    let (record, event) = UsageRecord::record(UsageEntry {
        request_id: "req_9".to_string(),
        credential_id: CredentialId::new("c1"),
        alias: AliasName::new("chat").unwrap(),
        tokens: TokenUsage { input: 1, output: 2, cache_read: 3, cache_write: 4 },
        cost: Money::from_micro_usd(7),
        succeeded: false,
        latency_ms: 12,
        failure_reason: Some("timeout".to_string()),
        affinity_hit: false,
        at: ts(5),
    });
    assert_eq!(record.request_id(), "req_9");
    assert_eq!(record.failure_reason(), Some("timeout"));
    assert_eq!(record.cost(), Money::from_micro_usd(7));
    assert_eq!(record.at(), ts(5));
    assert!(!record.succeeded());
    assert_eq!(record.tokens().total(), 10);
    assert_eq!(record.alias().as_str(), "chat");
    assert_eq!(record.credential_id().as_str(), "c1");
    assert_eq!(
        event,
        DomainEvent::UsageRecorded {
            credential_id: CredentialId::new("c1"),
            alias: "chat".to_string(),
            tokens: TokenUsage { input: 1, output: 2, cache_read: 3, cache_write: 4 },
            cost: Some(Money::from_micro_usd(7)),
            succeeded: false,
            latency_ms: 12,
            failure_reason: Some("timeout".to_string()),
            affinity_hit: false,
        }
    );
}

#[test]
fn money_and_instants() {
    assert_eq!(Money::from_micro_usd(5).add(Money::from_micro_usd(-8)), Money::from_micro_usd(-3));
    assert_eq!(Money::zero(), Money::default());
    assert!(Timestamp::new(1, 5).is_before(&Timestamp::new(1, 6)));
    assert!(!Timestamp::new(2, 0).is_before(&Timestamp::new(1, 9)));
    assert_eq!(Timestamp::new(3, 0).earliest(Timestamp::new(2, 9)), Timestamp::new(2, 9));
}

#[test]
fn messages_name_what_went_wrong() {
    assert_eq!(CredentialError::Duplicated("x".to_string()).to_string(), "凭证 x 已存在");
    assert_eq!(CredentialError::Invalid(InvalidValue::Blank("名称")).to_string(), "名称不能为空");
    assert_eq!(InvalidValue::OutOfRange("优先级").to_string(), "优先级取值非法");
    assert_eq!(CatalogError::GroupNotFound("g".to_string()).to_string(), "账号组 g 不存在");
    assert_eq!(
        RelayError::UpstreamFailed { provider: "OpenAI".to_string(), status: 503 }.to_string(),
        "上游 OpenAI 返回 503"
    );
    assert_eq!(
        RelayError::AllUnavailable {
            attempted: vec!["a".to_string(), "b".to_string(), "c".to_string()],
            recover_at: None,
        }
        .to_string(),
        "全部凭证不可用，已尝试 a、b、c"
    );
    assert_eq!(
        PortError::Upstream { status: 429, detail: "slow".to_string() }.to_string(),
        "上游返回 429：slow"
    );
    assert_eq!(PortError::Storage("disk".to_string()).to_string(), "存储失败：disk");
    assert_eq!(SettingsError::RetentionInvalid("0 天".to_string()).to_string(), "保留期 0 天 取值非法");
    assert_eq!(
        TranslationError::UnsupportedByTarget {
            feature: "图片".to_string(),
            protocol: Protocol::Gemini,
        }
        .to_string(),
        "目标协议 Gemini 不支持图片"
    );
    assert_eq!(
        UseCaseError::not_found(Entity::CredentialGroup, "g1").to_string(),
        "账号组 g1 不存在"
    );
    assert_eq!(Entity::Model.label(), "模型");
}

#[test]
fn use_case_errors_grade_domain_errors() {
    assert_eq!(
        UseCaseError::from_credential_error(CredentialError::NotFound("c9".to_string())),
        UseCaseError::NotFound { entity: Entity::Credential, name: "c9".to_string() }
    );
    assert_eq!(
        UseCaseError::from_credential_error(CredentialError::EmptySelection),
        UseCaseError::InvalidInput("至少保留一个模型".to_string())
    );
    assert_eq!(
        UseCaseError::from_credential_error(CredentialError::AuthorizationExpired),
        UseCaseError::Domain("授权已过期".to_string())
    );
    assert_eq!(
        UseCaseError::from_catalog_error(CatalogError::Duplicated("chat".to_string())),
        UseCaseError::Domain("别名 chat 已存在".to_string())
    );
    assert_eq!(
        UseCaseError::from_catalog_error(CatalogError::GroupNotFound("g".to_string())),
        UseCaseError::NotFound { entity: Entity::CredentialGroup, name: "g".to_string() }
    );
    assert_eq!(
        UseCaseError::from_relay_error(RelayError::Unauthorized),
        UseCaseError::Unauthorized
    );
    assert_eq!(
        UseCaseError::from_settings_error(SettingsError::RetentionInvalid("0 天".to_string())),
        UseCaseError::InvalidInput("保留期 0 天 取值非法".to_string())
    );
    assert_eq!(
        UseCaseError::from_port_error(PortError::Cipher("k".to_string())),
        UseCaseError::Port(PortError::Cipher("k".to_string()))
    );
}

#[test]
fn inbound_errors_grade_domain_errors() {
    assert_eq!(
        InboundError::from_credential_error(CredentialError::NotFound("c9".to_string())),
        InboundError::NotFound("凭证 c9".to_string())
    );
    assert_eq!(
        InboundError::from_credential_error(CredentialError::EmptySelection),
        InboundError::Domain("至少保留一个模型".to_string())
    );
    assert_eq!(
        InboundError::from_catalog_error(CatalogError::GroupNotFound("g".to_string())),
        InboundError::NotFound("g".to_string())
    );
    assert_eq!(
        InboundError::from_relay_error(RelayError::AliasNotFound("x".to_string())),
        InboundError::NotFound("模型 x".to_string())
    );
    assert_eq!(
        InboundError::from_relay_error(RelayError::AllUnavailable {
            attempted: vec!["a".to_string()],
            recover_at: Some(ts(3)),
        }),
        InboundError::AllCredentialsUnavailable {
            attempted: vec!["a".to_string()],
            retry_after_seconds: None,
        }
    );
    assert_eq!(
        InboundError::from_settings_error(SettingsError::Invalid(InvalidValue::Blank("监听地址"))),
        InboundError::InvalidInput("监听地址不能为空".to_string())
    );
    assert_eq!(InboundError::NotFound("凭证 c9".to_string()).to_string(), "凭证 c9 不存在");
}

#[test]
fn a_text_message_has_one_block() {
    let message = Message::text(Role::User, "hi");
    assert_eq!(message.role, Role::User);
    assert_eq!(message.blocks, vec![ContentBlock::Text("hi".to_string())]);
}
