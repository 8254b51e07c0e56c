//! Aggregate roots.

use vstd::prelude::*;

use crate::domain::errors::{CatalogError, CredentialError, SettingsError};
use crate::domain::events::DomainEvent;
use crate::domain::values::{
    after_cooldown, group_of, masked, offers_subscription, protocol_of, AliasName, AliasTargetId, CredentialId,
    GroupId, HealthStatus, InvalidValue, Money, Priority, Protocol, Provider, Secret,
    SelectionStrategy, Timestamp, TokenUsage, UpstreamModelId, Weight,
};
use crate::text::{decimal, is_blank, is_blank_text, push_decimal, same_text};

verus! {

/// The upstreams that credentials can be registered for.
pub open spec fn supported_upstream(name: Seq<char>) -> bool {
    name == "OpenAI"@ || name == "Anthropic"@ || name == "Gemini"@ || name == "DeepSeek"@
}

/// The set of upstreams the gateway can talk to.
pub struct SupportedUpstreams;

impl SupportedUpstreams {
    pub fn contains(provider: &Provider) -> (r: bool)
        ensures
            r == supported_upstream(provider@),
    {
        let name = provider.as_str();
        same_text(name, "OpenAI") || same_text(name, "Anthropic") || same_text(name, "Gemini")
            || same_text(name, "DeepSeek")
    }
}

/// How a credential authenticates against its upstream.
#[derive(Clone, PartialEq, Eq)]
pub enum CredentialKind {
    ApiKey { secret: Secret },
    Subscription {
        access_token: Secret,
        refresh_token: Secret,
        expires_at: Timestamp,
        account: Option<String>,
    },
}

impl CredentialKind {
    pub fn is_subscription(&self) -> (r: bool)
        ensures
            r == (*self is Subscription),
    {
        match self {
            CredentialKind::Subscription { .. } => true,
            _ => false,
        }
    }

    /// Subscription quota is not priced; only API keys accumulate cost.
    pub fn charges_cost(&self) -> (r: bool)
        ensures
            r == (*self is ApiKey),
    {
        match self {
            CredentialKind::ApiKey { .. } => true,
            _ => false,
        }
    }
}

/// The names of a list of models.
pub open spec fn model_names(models: Seq<UpstreamModelId>) -> Seq<Seq<char>> {
    models.map_values(|m: UpstreamModelId| m@)
}

/// The kept models that the new offer still contains, in their order.
pub open spec fn still_offered(kept: Seq<Seq<char>>, offered: Seq<Seq<char>>) -> Seq<Seq<char>>
    decreases kept.len(),
{
    if kept.len() == 0 {
        Seq::empty()
    } else {
        let rest = still_offered(kept.drop_last(), offered);
        if offered.contains(kept.last()) {
            rest.push(kept.last())
        } else {
            rest
        }
    }
}

/// Every model of `selected` is one of `offered`.
pub open spec fn all_offered(selected: Seq<Seq<char>>, offered: Seq<Seq<char>>) -> bool {
    forall|i: int| 0 <= i < selected.len() ==> offered.contains(#[trigger] selected[i])
}

/// What a credential is, seen from outside.
pub struct CredentialModel {
    pub id: Seq<char>,
    pub group: Seq<char>,
    pub name: Seq<char>,
    pub provider: Seq<char>,
    pub kind: CredentialKind,
    pub priority: u16,
    pub weight: u32,
    pub health: HealthStatus,
    pub offered: Seq<Seq<char>>,
    pub kept: Seq<Seq<char>>,
    pub next_refresh_at: Option<Timestamp>,
}

/// What holds of every credential: its group is its provider's, its name is
/// not blank, and it keeps only models that its upstream offers.
pub open spec fn credential_valid(c: CredentialModel) -> bool {
    &&& c.group == group_of(c.provider)
    &&& !is_blank_text(c.name)
    &&& all_offered(c.kept, c.offered)
}

pub open spec fn with_health(c: CredentialModel, health: HealthStatus) -> CredentialModel {
    CredentialModel { health, ..c }
}

/// An upstream credential: an API key or an authorized subscription.
#[derive(Clone, PartialEq, Eq)]
pub struct Credential {
    id: CredentialId,
    group: GroupId,
    name: String,
    provider: Provider,
    kind: CredentialKind,
    priority: Priority,
    weight: Weight,
    health: HealthStatus,
    offered_models: Vec<UpstreamModelId>,
    kept_models: Vec<UpstreamModelId>,
    next_refresh_at: Option<Timestamp>,
}

impl View for Credential {
    type V = CredentialModel;

    closed spec fn view(&self) -> CredentialModel {
        CredentialModel {
            id: self.id@,
            group: self.group@,
            name: self.name@,
            provider: self.provider@,
            kind: self.kind,
            priority: self.priority@,
            weight: self.weight@,
            health: self.health,
            offered: model_names(self.offered_models@),
            kept: model_names(self.kept_models@),
            next_refresh_at: self.next_refresh_at,
        }
    }
}

/// Whether `models` names `model`.
fn lists_model(models: &Vec<UpstreamModelId>, model: &UpstreamModelId) -> (r: bool)
    ensures
        r == model_names(models@).contains(model@),
{
    let n = models.len();
    let mut i: usize = 0;
    while i < n
        invariant
            n == models@.len(),
            i <= n,
            forall|j: int| 0 <= j < i ==> models@[j]@ != model@,
        decreases n - i,
    {
        if same_text(models[i].as_str(), model.as_str()) {
            assert(model_names(models@)[i as int] == model@);
            return true;
        }
        i = i + 1;
    }
    proof {
        if model_names(models@).contains(model@) {
            let k = choose|k: int| 0 <= k < model_names(models@).len() && model_names(models@)[k] == model@;
            assert(models@[k]@ == model@);
        }
    }
    false
}

impl Credential {
    pub open spec fn wf(&self) -> bool {
        credential_valid(self@)
    }

    /// Registers an API key. The upstream must be supported and the name not blank.
    pub fn register_api_key(id: CredentialId, name: &str, provider: Provider, secret: Secret) -> (r:
        Result<(Self, DomainEvent), CredentialError>)
        ensures
            r is Ok <==> supported_upstream(provider@) && !is_blank_text(name@),
            !supported_upstream(provider@) ==> (r matches Err(CredentialError::UpstreamUnsupported(
                p,
            )) && p@ == provider@),
            supported_upstream(provider@) && is_blank_text(name@) ==> (r matches Err(
                CredentialError::Invalid(InvalidValue::Blank(f)),
            ) && f@ == "名称"@),
            r matches Ok((c, e)) ==> {
                &&& c@ == (CredentialModel {
                    id: id@,
                    group: group_of(provider@),
                    name: name@,
                    provider: provider@,
                    kind: CredentialKind::ApiKey { secret },
                    priority: 1,
                    weight: 1,
                    health: HealthStatus::Ready,
                    offered: Seq::empty(),
                    kept: Seq::empty(),
                    next_refresh_at: None,
                })
                &&& c.wf()
                &&& e matches DomainEvent::CredentialRegistered { id: i, name: n, provider: p }
                &&& i@ == id@ && n@ == name@ && p@ == provider@
            },
    {
        if !SupportedUpstreams::contains(&provider) {
            return Err(CredentialError::UpstreamUnsupported(provider.as_str().to_owned()));
        }
        let group = GroupId::for_provider(&provider);
        if is_blank(name) {
            return Err(CredentialError::Invalid(InvalidValue::Blank("名称")));
        }
        let event = DomainEvent::CredentialRegistered {
            id: id.clone(),
            name: name.to_owned(),
            provider: provider.as_str().to_owned(),
        };
        let credential = Credential {
            id,
            group,
            name: name.to_owned(),
            provider,
            kind: CredentialKind::ApiKey { secret },
            priority: Priority::default(),
            weight: Weight::default(),
            health: HealthStatus::Ready,
            offered_models: Vec::new(),
            kept_models: Vec::new(),
            next_refresh_at: None,
        };
        assert(model_names(credential.kept_models@) =~= Seq::empty());
        assert(model_names(credential.offered_models@) =~= Seq::empty());
        Ok((credential, event))
    }

    /// Registers an authorized subscription. The upstream must be supported and
    /// offer subscriptions, and the name must not be blank. The first refresh is
    /// due when the access token expires.
    pub fn register_subscription(
        id: CredentialId,
        name: &str,
        provider: Provider,
        access_token: Secret,
        refresh_token: Secret,
        expires_at: Timestamp,
        account: Option<String>,
    ) -> (r: Result<(Self, DomainEvent), CredentialError>)
        ensures
            r is Ok <==> supported_upstream(provider@) && offers_subscription(provider@)
                && !is_blank_text(name@),
            !supported_upstream(provider@) ==> (r matches Err(CredentialError::UpstreamUnsupported(
                p,
            )) && p@ == provider@),
            supported_upstream(provider@) && !offers_subscription(provider@) ==> (r matches Err(
                CredentialError::UpstreamLacksSubscription(p),
            ) && p@ == provider@),
            supported_upstream(provider@) && offers_subscription(provider@) && is_blank_text(
                name@,
            ) ==> (r matches Err(CredentialError::Invalid(InvalidValue::Blank(f))) && f@
                == "名称"@),
            r matches Ok((c, e)) ==> {
                &&& c@ == (CredentialModel {
                    id: id@,
                    group: group_of(provider@),
                    name: name@,
                    provider: provider@,
                    kind: CredentialKind::Subscription {
                        access_token,
                        refresh_token,
                        expires_at,
                        account,
                    },
                    priority: 1,
                    weight: 1,
                    health: HealthStatus::Ready,
                    offered: Seq::empty(),
                    kept: Seq::empty(),
                    next_refresh_at: Some(expires_at),
                })
                &&& c.wf()
                &&& e matches DomainEvent::CredentialRegistered { id: i, name: n, provider: p }
                &&& i@ == id@ && n@ == name@ && p@ == provider@
            },
    {
        if !SupportedUpstreams::contains(&provider) {
            return Err(CredentialError::UpstreamUnsupported(provider.as_str().to_owned()));
        }
        if !provider.supports_subscription() {
            return Err(CredentialError::UpstreamLacksSubscription(provider.as_str().to_owned()));
        }
        let group = GroupId::for_provider(&provider);
        if is_blank(name) {
            return Err(CredentialError::Invalid(InvalidValue::Blank("名称")));
        }
        let event = DomainEvent::CredentialRegistered {
            id: id.clone(),
            name: name.to_owned(),
            provider: provider.as_str().to_owned(),
        };
        let credential = Credential {
            id,
            group,
            name: name.to_owned(),
            provider,
            kind: CredentialKind::Subscription { access_token, refresh_token, expires_at, account },
            priority: Priority::default(),
            weight: Weight::default(),
            health: HealthStatus::Ready,
            offered_models: Vec::new(),
            kept_models: Vec::new(),
            next_refresh_at: Some(expires_at),
        };
        assert(model_names(credential.kept_models@) =~= Seq::empty());
        assert(model_names(credential.offered_models@) =~= Seq::empty());
        Ok((credential, event))
    }

    pub fn id(&self) -> (r: &CredentialId)
        ensures
            r@ == self@.id,
    {
        &self.id
    }

    pub fn group(&self) -> (r: &GroupId)
        ensures
            r@ == self@.group,
    {
        &self.group
    }

    pub fn name(&self) -> (r: &str)
        ensures
            r@ == self@.name,
    {
        self.name.as_str()
    }

    pub fn provider(&self) -> (r: &Provider)
        ensures
            r@ == self@.provider,
    {
        &self.provider
    }

    pub fn kind(&self) -> (r: &CredentialKind)
        ensures
            *r == self@.kind,
    {
        &self.kind
    }

    pub fn health(&self) -> (r: &HealthStatus)
        ensures
            *r == self@.health,
    {
        &self.health
    }

    pub fn priority(&self) -> (r: Priority)
        ensures
            r@ == self@.priority,
    {
        self.priority
    }

    pub fn weight(&self) -> (r: Weight)
        ensures
            r@ == self@.weight,
    {
        self.weight
    }

    pub fn offered_models(&self) -> (r: &[UpstreamModelId])
        ensures
            model_names(r@) == self@.offered,
    {
        self.offered_models.as_slice()
    }

    pub fn kept_models(&self) -> (r: &[UpstreamModelId])
        ensures
            model_names(r@) == self@.kept,
    {
        self.kept_models.as_slice()
    }

    pub fn next_refresh_at(&self) -> (r: Option<Timestamp>)
        ensures
            r == self@.next_refresh_at,
    {
        self.next_refresh_at
    }

    pub fn is_available(&self) -> (r: bool)
        ensures
            r == (self@.health is Ready),
    {
        self.health.is_available()
    }

    /// The secret as it may be shown: an API key masked, a subscription as authorized.
    pub fn masked_secret(&self) -> (r: String)
        ensures
            r@ == match self@.kind {
                CredentialKind::ApiKey { secret } => masked(secret@),
                CredentialKind::Subscription { .. } => "oauth •••• 已授权"@,
            },
    {
        match &self.kind {
            CredentialKind::ApiKey { secret } => secret.mask(),
            CredentialKind::Subscription { .. } => String::from_str("oauth •••• 已授权"),
        }
    }

    /// Records the models that the upstream now offers. Kept models that are no
    /// longer offered are dropped; when that would drop every kept model, the
    /// offer is refused and nothing changes.
    pub fn record_offered_models(&mut self, models: Vec<UpstreamModelId>) -> (r: Result<
        (),
        CredentialError,
    >)
        requires
            old(self).wf(),
        ensures
            final(self).wf(),
            r is Err <==> old(self)@.kept.len() > 0 && still_offered(
                old(self)@.kept,
                model_names(models@),
            ).len() == 0,
            r is Err ==> r == Err::<(), CredentialError>(CredentialError::EmptySelection) && final(self)@ == old(self)@,
            r is Ok ==> final(self)@ == (CredentialModel {
                offered: model_names(models@),
                kept: still_offered(old(self)@.kept, model_names(models@)),
                ..old(self)@
            }),
    {
        let ghost offer = model_names(models@);
        let n = self.kept_models.len();
        let mut retained: Vec<UpstreamModelId> = Vec::new();
        let mut i: usize = 0;
        while i < n
            invariant
                n == self.kept_models@.len(),
                i <= n,
                model_names(retained@) == still_offered(
                    model_names(self.kept_models@).take(i as int),
                    offer,
                ),
                offer == model_names(models@),
            decreases n - i,
        {
            let model = &self.kept_models[i];
            let ghost prefix = model_names(self.kept_models@).take(i as int);
            let ghost next = model_names(self.kept_models@).take(i + 1);
            assert(next.drop_last() =~= prefix);
            assert(next.last() == model@);
            if lists_model(&models, model) {
                let copy = model.clone();
                retained.push(copy);
                assert(model_names(retained@) =~= still_offered(prefix, offer).push(model@));
            }
            i = i + 1;
        }
        assert(model_names(self.kept_models@).take(n as int) =~= model_names(self.kept_models@));
        if n > 0 && retained.len() == 0 {
            return Err(CredentialError::EmptySelection);
        }
        proof {
            lemma_still_offered_subset(model_names(self.kept_models@), offer);
        }
        self.kept_models = retained;
        self.offered_models = models;
        Ok(())
    }

    /// Chooses which offered models to keep. The selection must not be empty
    /// and every model in it must be offered; the first one that is not is named.
    pub fn update_kept_models(&mut self, selected: Vec<UpstreamModelId>) -> (r: Result<
        (),
        CredentialError,
    >)
        requires
            old(self).wf(),
        ensures
            final(self).wf(),
            r is Ok <==> selected@.len() > 0 && all_offered(
                model_names(selected@),
                old(self)@.offered,
            ),
            selected@.len() == 0 ==> r == Err::<(), CredentialError>(
                CredentialError::EmptySelection,
            ),
            selected@.len() > 0 && !all_offered(model_names(selected@), old(self)@.offered) ==> (
            exists|k: int|
                0 <= k < selected@.len() && !old(self)@.offered.contains(#[trigger] selected@[k]@)
                    && all_offered(model_names(selected@).take(k), old(self)@.offered) && (
                r matches Err(CredentialError::ModelNotOffered(m)) && m@ == selected@[k]@)),
            r is Err ==> final(self)@ == old(self)@,
            r is Ok ==> final(self)@ == (CredentialModel {
                kept: model_names(selected@),
                ..old(self)@
            }),
    {
        if selected.len() == 0 {
            return Err(CredentialError::EmptySelection);
        }
        let n = selected.len();
        let mut i: usize = 0;
        while i < n
            invariant
                n == selected@.len(),
                i <= n,
                all_offered(model_names(selected@).take(i as int), self@.offered),
                self@.offered == model_names(self.offered_models@),
                self@ == old(self)@,
                old(self).wf(),
            decreases n - i,
        {
            let model = &selected[i];
            if !lists_model(&self.offered_models, model) {
                assert(!all_offered(model_names(selected@), self@.offered)) by {
                    assert(model_names(selected@)[i as int] == model@);
                }
                return Err(CredentialError::ModelNotOffered(model.as_str().to_owned()));
            }
            assert forall|j: int| 0 <= j < i + 1 implies self@.offered.contains(
                #[trigger] model_names(selected@).take(i + 1)[j],
            ) by {
                if j < i {
                    assert(model_names(selected@).take(i + 1)[j] == model_names(selected@).take(
                        i as int,
                    )[j]);
                }
            }
            i = i + 1;
        }
        assert(model_names(selected@).take(n as int) =~= model_names(selected@));
        self.kept_models = selected;
        Ok(())
    }

    /// Fetching models needs a credential that is ready.
    pub fn ensure_available_for_fetch(&self) -> (r: Result<(), CredentialError>)
        ensures
            r is Ok <==> self@.health is Ready,
            r is Err ==> (r matches Err(CredentialError::NotAvailable(n)) && n@ == self@.name),
    {
        if self.is_available() {
            Ok(())
        } else {
            Err(CredentialError::NotAvailable(self.name.clone()))
        }
    }

    /// Names are unique; whether this one is taken is found by the caller, who
    /// sees all credentials, and the credential decides.
    pub fn ensure_name_available(&self, taken: bool) -> (r: Result<(), CredentialError>)
        ensures
            r is Ok <==> !taken,
            r is Err ==> (r matches Err(CredentialError::Duplicated(n)) && n@ == self@.name),
    {
        if taken {
            return Err(CredentialError::Duplicated(self.name.clone()));
        }
        Ok(())
    }

    fn health_changed_event(&self) -> (e: DomainEvent)
        ensures
            e matches DomainEvent::CredentialHealthChanged { id, status } && id@ == self@.id
                && status == self@.health,
    {
        DomainEvent::CredentialHealthChanged { id: self.id.clone(), status: self.health.clone() }
    }

    pub fn disable(&mut self) -> (e: DomainEvent)
        requires
            old(self).wf(),
        ensures
            final(self).wf(),
            final(self)@ == with_health(old(self)@, HealthStatus::Disabled),
            e matches DomainEvent::CredentialHealthChanged { id, status } && id@ == old(self)@.id
                && status == HealthStatus::Disabled,
    {
        self.health = HealthStatus::Disabled;
        self.health_changed_event()
    }

    pub fn enable(&mut self) -> (e: DomainEvent)
        requires
            old(self).wf(),
        ensures
            final(self).wf(),
            final(self)@ == with_health(old(self)@, HealthStatus::Ready),
            e matches DomainEvent::CredentialHealthChanged { id, status } && id@ == old(self)@.id
                && status == HealthStatus::Ready,
    {
        self.health = HealthStatus::Ready;
        self.health_changed_event()
    }

    /// Puts the credential on cooldown until `recover_at`.
    pub fn mark_cooling(&mut self, reason: &str, recover_at: Timestamp) -> (e: DomainEvent)
        requires
            old(self).wf(),
        ensures
            final(self).wf(),
            final(self)@.health matches HealthStatus::Cooling { reason: why, recover_at: at }
                && why@ == reason@ && at == recover_at,
            final(self)@ == with_health(old(self)@, final(self)@.health),
            e matches DomainEvent::CredentialHealthChanged { id, status } && id@ == old(self)@.id
                && status == final(self)@.health,
    {
        self.health = HealthStatus::Cooling { reason: reason.to_owned(), recover_at };
        self.health_changed_event()
    }

    pub fn mark_failed(&mut self, reason: &str) -> (e: DomainEvent)
        requires
            old(self).wf(),
        ensures
            final(self).wf(),
            final(self)@.health matches HealthStatus::Failed { reason: why } && why@ == reason@,
            final(self)@ == with_health(old(self)@, final(self)@.health),
            e matches DomainEvent::CredentialHealthChanged { id, status } && id@ == old(self)@.id
                && status == final(self)@.health,
    {
        self.health = HealthStatus::Failed { reason: reason.to_owned() };
        self.health_changed_event()
    }

    /// Once its cooldown has run out the credential is ready again, and the
    /// change is announced; otherwise nothing changes.
    pub fn recover_from_cooldown(&mut self, now: Timestamp) -> (r: Option<DomainEvent>)
        requires
            old(self).wf(),
        ensures
            final(self).wf(),
            r is Some <==> (old(self)@.health matches HealthStatus::Cooling { recover_at, .. }
                && !now.precedes(recover_at)),
            r is Some ==> final(self)@ == with_health(old(self)@, HealthStatus::Ready) && (r
                matches Some(DomainEvent::CredentialHealthChanged { id, status }) && id@ == old(self)@.id && status == HealthStatus::Ready),
            r is None ==> final(self)@ == old(self)@,
    {
        let recovered = self.health.recovered_after_cooldown(now);
        if recovered.is_available() && !self.health.is_available() {
            self.health = recovered;
            return Some(self.health_changed_event());
        }
        None
    }

    /// Takes new tokens after a refresh: a subscription gets them and their
    /// expiry, the credential is ready, and the next refresh is due at the expiry.
    pub fn apply_refresh(&mut self, access_token: Secret, refresh_token: Secret, expires_at: Timestamp) -> (e:
        DomainEvent)
        requires
            old(self).wf(),
        ensures
            final(self).wf(),
            final(self)@ == (CredentialModel {
                kind: match old(self)@.kind {
                    CredentialKind::Subscription { account, .. } => CredentialKind::Subscription {
                        access_token,
                        refresh_token,
                        expires_at,
                        account,
                    },
                    CredentialKind::ApiKey { secret } => CredentialKind::ApiKey { secret },
                },
                health: HealthStatus::Ready,
                next_refresh_at: Some(expires_at),
                ..old(self)@
            }),
            e matches DomainEvent::CredentialHealthChanged { id, status } && id@ == old(self)@.id
                && status == HealthStatus::Ready,
    {
        let account: Option<Option<String>> = match &self.kind {
            CredentialKind::Subscription { account, .. } => Some(
                match account {
                    Some(a) => Some(a.clone()),
                    None => None,
                },
            ),
            CredentialKind::ApiKey { .. } => None,
        };
        if let Some(account) = account {
            self.kind = CredentialKind::Subscription { access_token, refresh_token, expires_at, account };
        }
        self.health = HealthStatus::Ready;
        self.next_refresh_at = Some(expires_at);
        self.health_changed_event()
    }

    /// Deletes the credential; the event lets subscribers drop their references.
    pub fn delete(self) -> (e: DomainEvent)
        ensures
            e matches DomainEvent::CredentialDeleted { id } && id@ == self@.id,
    {
        DomainEvent::CredentialDeleted { id: self.id }
    }

    /// A failed refresh: while the access token is still valid only the next
    /// refresh is postponed (to `retry_at`, at the latest the expiry); once it
    /// has expired the credential fails and no refresh is scheduled.
    pub fn on_refresh_failed(&mut self, now: Timestamp, retry_at: Timestamp) -> (r: Option<
        DomainEvent,
    >)
        requires
            old(self).wf(),
        ensures
            final(self).wf(),
            (old(self)@.kind matches CredentialKind::Subscription { expires_at, .. }
                && now.precedes(expires_at)) ==> r is None && final(self)@ == (CredentialModel {
                next_refresh_at: Some(retry_at.earlier_of(old(self)@.kind->expires_at)),
                ..old(self)@
            }),
            !(old(self)@.kind matches CredentialKind::Subscription { expires_at, .. }
                && now.precedes(expires_at)) ==> {
                &&& final(self)@.health matches HealthStatus::Failed { reason } && reason@
                    == "刷新失败"@
                &&& final(self)@ == (CredentialModel {
                    health: final(self)@.health,
                    next_refresh_at: None,
                    ..old(self)@
                })
                &&& r matches Some(DomainEvent::CredentialHealthChanged { id, status })
                &&& id@ == old(self)@.id && status == final(self)@.health
            },
    {
        if let CredentialKind::Subscription { expires_at, .. } = &self.kind {
            if now.is_before(expires_at) {
                self.next_refresh_at = Some(retry_at.earliest(*expires_at));
                return None;
            }
        }
        self.next_refresh_at = None;
        Some(self.mark_failed("刷新失败"))
    }
}


/// What an alias target is, seen from outside.
pub struct AliasTargetModel {
    pub id: Seq<char>,
    pub group: Seq<char>,
    pub upstream_model: Seq<char>,
    pub protocol: Protocol,
    pub weight: u32,
    pub priority: u16,
}

/// One upstream model that an alias can be routed to, within a credential group.
#[derive(Debug, PartialEq, Eq)]
pub struct AliasTarget {
    id: AliasTargetId,
    group: GroupId,
    upstream_model: UpstreamModelId,
    protocol: Protocol,
    weight: Weight,
    priority: Priority,
}

impl View for AliasTarget {
    type V = AliasTargetModel;

    closed spec fn view(&self) -> AliasTargetModel {
        AliasTargetModel {
            id: self.id@,
            group: self.group@,
            upstream_model: self.upstream_model@,
            protocol: self.protocol,
            weight: self.weight@,
            priority: self.priority@,
        }
    }
}

impl Clone for AliasTarget {
    fn clone(&self) -> (r: Self)
        ensures
            r@ == self@,
    {
        AliasTarget {
            id: self.id.clone(),
            group: self.group.clone(),
            upstream_model: self.upstream_model.clone(),
            protocol: self.protocol,
            weight: self.weight,
            priority: self.priority,
        }
    }
}

impl AliasTarget {
    /// A new target takes part with weight one at priority one.
    pub fn new(id: AliasTargetId, group: GroupId, upstream_model: UpstreamModelId, protocol: Protocol) -> (r:
        Self)
        ensures
            r@ == (AliasTargetModel {
                id: id@,
                group: group@,
                upstream_model: upstream_model@,
                protocol,
                weight: 1,
                priority: 1,
            }),
    {
        AliasTarget {
            id,
            group,
            upstream_model,
            protocol,
            weight: Weight::default(),
            priority: Priority::default(),
        }
    }

    pub fn id(&self) -> (r: &AliasTargetId)
        ensures
            r@ == self@.id,
    {
        &self.id
    }

    pub fn group(&self) -> (r: &GroupId)
        ensures
            r@ == self@.group,
    {
        &self.group
    }

    pub fn upstream_model(&self) -> (r: &UpstreamModelId)
        ensures
            r@ == self@.upstream_model,
    {
        &self.upstream_model
    }

    pub fn protocol(&self) -> (r: Protocol)
        ensures
            r == self@.protocol,
    {
        self.protocol
    }

    pub fn weight(&self) -> (r: Weight)
        ensures
            r@ == self@.weight,
    {
        self.weight
    }

    pub fn priority(&self) -> (r: Priority)
        ensures
            r@ == self@.priority,
    {
        self.priority
    }

    pub fn tune(&mut self, weight: Weight, priority: Priority)
        ensures
            final(self)@ == (AliasTargetModel {
                weight: weight@,
                priority: priority@,
                ..old(self)@
            }),
    {
        self.weight = weight;
        self.priority = priority;
    }
}

/// What a credential group is, seen from outside.
pub struct CredentialGroupModel {
    pub id: Seq<char>,
    pub provider: Seq<char>,
    pub strategy: SelectionStrategy,
    pub max_concurrency: u32,
}

/// The credentials of one upstream; the unit of scheduling.
#[derive(Debug, PartialEq, Eq)]
pub struct CredentialGroup {
    id: GroupId,
    provider: Provider,
    strategy: SelectionStrategy,
    max_concurrency: u32,
}

impl View for CredentialGroup {
    type V = CredentialGroupModel;

    closed spec fn view(&self) -> CredentialGroupModel {
        CredentialGroupModel {
            id: self.id@,
            provider: self.provider@,
            strategy: self.strategy,
            max_concurrency: self.max_concurrency,
        }
    }
}

impl Clone for CredentialGroup {
    fn clone(&self) -> (r: Self)
        ensures
            r@ == self@,
    {
        proof {
            use_type_invariant(self);
        }
        CredentialGroup {
            id: self.id.clone(),
            provider: self.provider.clone(),
            strategy: self.strategy,
            max_concurrency: self.max_concurrency,
        }
    }
}

impl CredentialGroup {
    /// A group allows at least one concurrent call.
    #[verifier::type_invariant]
    spec fn concurrency_positive(self) -> bool {
        self.max_concurrency >= 1
    }

    /// The group is determined by its provider, and its identifier derived from it.
    pub fn for_provider(provider: Provider) -> (r: Self)
        ensures
            r@ == (CredentialGroupModel {
                id: group_of(provider@),
                provider: provider@,
                strategy: SelectionStrategy::RoundRobin,
                max_concurrency: 4,
            }),
    {
        CredentialGroup {
            id: GroupId::for_provider(&provider),
            provider,
            strategy: SelectionStrategy::default(),
            max_concurrency: 4,
        }
    }

    pub fn max_concurrency(&self) -> (r: u32)
        ensures
            r == self@.max_concurrency,
            r >= 1,
    {
        proof {
            use_type_invariant(self);
        }
        self.max_concurrency
    }

    /// Sets the concurrency limit, raised to one if lower.
    pub fn set_max_concurrency(&mut self, value: u32)
        ensures
            final(self)@ == (CredentialGroupModel {
                max_concurrency: if value >= 1 { value } else { 1 },
                ..old(self)@
            }),
    {
        self.max_concurrency = if value >= 1 { value } else { 1 };
    }

    pub fn id(&self) -> (r: &GroupId)
        ensures
            r@ == self@.id,
    {
        &self.id
    }

    pub fn provider(&self) -> (r: &Provider)
        ensures
            r@ == self@.provider,
    {
        &self.provider
    }

    pub fn strategy(&self) -> (r: SelectionStrategy)
        ensures
            r == self@.strategy,
    {
        self.strategy
    }

    pub fn set_strategy(&mut self, strategy: SelectionStrategy)
        ensures
            final(self)@ == (CredentialGroupModel { strategy, ..old(self)@ }),
    {
        proof {
            use_type_invariant(&*self);
        }
        self.strategy = strategy;
    }

    /// Removes a group that has no credentials left; the event lets aliases drop its targets.
    pub fn remove(self) -> (e: DomainEvent)
        ensures
            e matches DomainEvent::CredentialGroupRemoved { id } && id@ == self@.id,
    {
        DomainEvent::CredentialGroupRemoved { id: self.id }
    }
}


/// The targets' views, in order.
pub open spec fn target_models(targets: Seq<AliasTarget>) -> Seq<AliasTargetModel> {
    targets.map_values(|t: AliasTarget| t@)
}

/// A target with weight zero takes no part in selection.
pub open spec fn participates(t: AliasTargetModel) -> bool {
    t.weight > 0
}

/// The best (numerically smallest) priority among the participating targets.
pub open spec fn best_priority(ts: Seq<AliasTargetModel>) -> Option<u16>
    decreases ts.len(),
{
    if ts.len() == 0 {
        None
    } else {
        let rest = best_priority(ts.drop_last());
        let t = ts.last();
        if !participates(t) {
            rest
        } else {
            match rest {
                None => Some(t.priority),
                Some(p) => if t.priority < p {
                    Some(t.priority)
                } else {
                    Some(p)
                },
            }
        }
    }
}

/// The targets that selection chooses among: participating, at priority `p`.
pub open spec fn in_pool(t: AliasTargetModel, p: u16) -> bool {
    participates(t) && t.priority == p
}

/// The summed weight of the pool at priority `p`.
pub open spec fn pool_weight(ts: Seq<AliasTargetModel>, p: u16) -> nat
    decreases ts.len(),
{
    if ts.len() == 0 {
        0
    } else {
        pool_weight(ts.drop_last(), p) + if in_pool(ts.last(), p) {
            ts.last().weight as nat
        } else {
            0
        }
    }
}

/// The targets of `ts` outside `group`, in their order.
pub open spec fn without_group(ts: Seq<AliasTargetModel>, group: Seq<char>) -> Seq<AliasTargetModel>
    decreases ts.len(),
{
    if ts.len() == 0 {
        Seq::empty()
    } else {
        let rest = without_group(ts.drop_last(), group);
        if ts.last().group == group {
            rest
        } else {
            rest.push(ts.last())
        }
    }
}

/// Some target of `ts` lies in `group`.
pub open spec fn mentions_group(ts: Seq<AliasTargetModel>, group: Seq<char>) -> bool {
    exists|i: int| 0 <= i < ts.len() && (#[trigger] ts[i]).group == group
}

/// What an alias is, seen from outside.
pub struct AliasModel {
    pub name: Seq<char>,
    pub targets: Seq<AliasTargetModel>,
}

/// A model name that clients use, routed to one or more targets.
#[derive(Debug, Clone, PartialEq, Eq)]
pub struct Alias {
    name: AliasName,
    targets: Vec<AliasTarget>,
}

impl View for Alias {
    type V = AliasModel;

    closed spec fn view(&self) -> AliasModel {
        AliasModel { name: self.name@, targets: target_models(self.targets@) }
    }
}

impl Alias {
    pub fn create(name: AliasName, first: AliasTarget) -> (r: Self)
        ensures
            r@ == (AliasModel { name: name@, targets: seq![first@] }),
    {
        let targets = vec![first];
        let r = Alias { name, targets };
        assert(target_models(r.targets@) =~= seq![first@]);
        r
    }

    pub fn name(&self) -> (r: &AliasName)
        ensures
            r@ == self@.name,
    {
        &self.name
    }

    pub fn targets(&self) -> (r: &[AliasTarget])
        ensures
            target_models(r@) == self@.targets,
    {
        self.targets.as_slice()
    }

    pub fn add_target(&mut self, target: AliasTarget)
        ensures
            final(self)@ == (AliasModel { targets: old(self)@.targets.push(target@), ..old(self)@ }),
    {
        self.targets.push(target);
        assert(target_models(self.targets@) =~= target_models(old(self).targets@).push(target@));
    }

    fn best_priority_exec(&self) -> (r: Option<u16>)
        ensures
            r == best_priority(self@.targets),
    {
        let n = self.targets.len();
        let mut best: Option<u16> = None;
        let mut i: usize = 0;
        while i < n
            invariant
                n == self.targets@.len(),
                i <= n,
                best == best_priority(target_models(self.targets@).take(i as int)),
            decreases n - i,
        {
            let t = &self.targets[i];
            let ghost prefix = target_models(self.targets@).take(i as int);
            let ghost next = target_models(self.targets@).take(i + 1);
            assert(next.drop_last() =~= prefix);
            assert(next.last() == t@);
            if t.weight.is_participating() {
                let p = t.priority.value();
                best = match best {
                    None => Some(p),
                    Some(b) => if p < b {
                        Some(p)
                    } else {
                        Some(b)
                    },
                };
            }
            i = i + 1;
        }
        assert(target_models(self.targets@).take(n as int) =~= target_models(self.targets@));
        best
    }

    /// The summed weight of the targets that selection chooses among: the
    /// participating targets of the best priority (zero when none participates).
    pub fn participating_weight(&self) -> (r: u64)
        requires
            best_priority(self@.targets) matches Some(p) ==> pool_weight(self@.targets, p)
                <= u64::MAX,
        ensures
            r == match best_priority(self@.targets) {
                None => 0,
                Some(p) => pool_weight(self@.targets, p),
            },
    {
        let best = self.best_priority_exec();
        match best {
            None => 0,
            Some(p) => {
                let n = self.targets.len();
                let mut total: u64 = 0;
                let mut i: usize = 0;
                while i < n
                    invariant
                        n == self.targets@.len(),
                        i <= n,
                        total == pool_weight(target_models(self.targets@).take(i as int), p),
                        pool_weight(target_models(self.targets@), p) <= u64::MAX,
                    decreases n - i,
                {
                    let t = &self.targets[i];
                    let ghost prefix = target_models(self.targets@).take(i as int);
                    let ghost next = target_models(self.targets@).take(i + 1);
                    assert(next.drop_last() =~= prefix);
                    assert(next.last() == t@);
                    proof {
                        lemma_pool_weight_prefix(target_models(self.targets@), p, i + 1);
                    }
                    if t.weight.is_participating() && t.priority.value() == p {
                        total = total + t.weight.value() as u64;
                    }
                    i = i + 1;
                }
                assert(target_models(self.targets@).take(n as int) =~= target_models(self.targets@));
                total
            },
        }
    }

    /// Weighted choice at `point`: among the participating targets of the best
    /// priority, laid end to end in order with lengths equal to their weights,
    /// the target whose stretch contains `point`; `None` when `point` lies past
    /// them all or no target participates.
    pub fn pick_target(&self, point: u64) -> (r: Option<&AliasTarget>)
        ensures
            best_priority(self@.targets) is None ==> r is None,
            best_priority(self@.targets) matches Some(p) ==> {
                let ts = self@.targets;
                &&& point >= pool_weight(ts, p) ==> r is None
                &&& point < pool_weight(ts, p) ==> exists|k: int|
                    0 <= k < ts.len() && in_pool(#[trigger] ts[k], p) && pool_weight(ts.take(k), p)
                        <= point < pool_weight(ts.take(k), p) + ts[k].weight && (r matches Some(
                        t) && t@ == ts[k])
            },
    {
        let best = self.best_priority_exec();
        match best {
            None => None,
            Some(p) => {
                let ghost ts = target_models(self.targets@);
                let n = self.targets.len();
                let mut remaining: u64 = point;
                let mut i: usize = 0;
                while i < n
                    invariant
                        n == self.targets@.len(),
                        ts == target_models(self.targets@),
                        i <= n,
                        pool_weight(ts.take(i as int), p) <= point,
                        remaining == point - pool_weight(ts.take(i as int), p),
                        best_priority(ts) == Some(p),
                    decreases n - i,
                {
                    let t = &self.targets[i];
                    let ghost prefix = ts.take(i as int);
                    let ghost next = ts.take(i + 1);
                    assert(next.drop_last() =~= prefix);
                    assert(next.last() == t@);
                    assert(ts[i as int] == t@);
                    if t.weight.is_participating() && t.priority.value() == p {
                        let w = t.weight.value() as u64;
                        if remaining < w {
                            assert(pool_weight(ts, p) > point) by {
                                lemma_pool_weight_prefix(ts, p, i + 1);
                            }
                            return Some(t);
                        }
                        remaining = remaining - w;
                    }
                    i = i + 1;
                }
                assert(ts.take(n as int) =~= ts);
                None
            },
        }
    }

    /// Whether some target lies in `group`.
    pub fn references_group(&self, group: &GroupId) -> (r: bool)
        ensures
            r == mentions_group(self@.targets, group@),
    {
        let n = self.targets.len();
        let mut i: usize = 0;
        while i < n
            invariant
                n == self.targets@.len(),
                i <= n,
                forall|j: int| 0 <= j < i ==> (#[trigger] target_models(self.targets@)[j]).group != group@,
            decreases n - i,
        {
            if same_text(self.targets[i].group.as_str(), group.as_str()) {
                assert(target_models(self.targets@)[i as int].group == group@);
                return true;
            }
            i = i + 1;
        }
        false
    }

    /// Drops the targets in `group`, keeping the others in order; tells whether
    /// none is left, so that the caller can decide to delete the alias.
    pub fn remove_group_targets(&mut self, group: &GroupId) -> (r: bool)
        ensures
            final(self)@ == (AliasModel { targets: without_group(old(self)@.targets, group@), ..old(self)@ }),
            r == (final(self)@.targets.len() == 0),
    {
        let n = self.targets.len();
        let mut kept: Vec<AliasTarget> = Vec::new();
        let mut i: usize = 0;
        while i < n
            invariant
                n == self.targets@.len(),
                i <= n,
                self@ == old(self)@,
                target_models(kept@) == without_group(target_models(self.targets@).take(i as int), group@),
            decreases n - i,
        {
            let t = &self.targets[i];
            let ghost prefix = target_models(self.targets@).take(i as int);
            let ghost next = target_models(self.targets@).take(i + 1);
            assert(next.drop_last() =~= prefix);
            assert(next.last() == t@);
            if !same_text(t.group.as_str(), group.as_str()) {
                kept.push(t.clone());
                assert(target_models(kept@) =~= without_group(prefix, group@).push(t@));
            }
            i = i + 1;
        }
        assert(target_models(self.targets@).take(n as int) =~= target_models(self.targets@));
        self.targets = kept;
        self.targets.len() == 0
    }
}


/// One call's accounting input.
#[derive(Debug, Clone)]
pub struct UsageEntry {
    pub request_id: String,
    pub credential_id: CredentialId,
    pub alias: AliasName,
    pub tokens: TokenUsage,
    pub cost: Money,
    pub succeeded: bool,
    pub latency_ms: u64,
    pub failure_reason: Option<String>,
    pub affinity_hit: bool,
    pub at: Timestamp,
}

/// The accounting record of one call; appended, never changed.
#[derive(Debug, Clone, PartialEq, Eq)]
pub struct UsageRecord {
    request_id: String,
    credential_id: CredentialId,
    alias: AliasName,
    tokens: TokenUsage,
    cost: Money,
    succeeded: bool,
    latency_ms: u64,
    failure_reason: Option<String>,
    affinity_hit: bool,
    at: Timestamp,
}

impl View for UsageRecord {
    type V = UsageEntry;

    closed spec fn view(&self) -> UsageEntry {
        UsageEntry {
            request_id: self.request_id,
            credential_id: self.credential_id,
            alias: self.alias,
            tokens: self.tokens,
            cost: self.cost,
            succeeded: self.succeeded,
            latency_ms: self.latency_ms,
            failure_reason: self.failure_reason,
            affinity_hit: self.affinity_hit,
            at: self.at,
        }
    }
}

fn copy_text(t: &Option<String>) -> (r: Option<String>)
    ensures
        r == *t,
{
    match t {
        Some(s) => Some(s.clone()),
        None => None,
    }
}

impl UsageRecord {
    /// Records a call, and announces it with the priced cost.
    pub fn record(entry: UsageEntry) -> (r: (Self, DomainEvent))
        ensures
            r.0@ == entry,
            r.1 matches DomainEvent::UsageRecorded {
                credential_id,
                alias,
                tokens,
                cost,
                succeeded,
                latency_ms,
                failure_reason,
                affinity_hit,
            } && credential_id == entry.credential_id && alias@ == entry.alias@ && tokens
                == entry.tokens && cost == Some(entry.cost) && succeeded == entry.succeeded
                && latency_ms == entry.latency_ms && failure_reason == entry.failure_reason
                && affinity_hit == entry.affinity_hit,
    {
        let record = UsageRecord {
            request_id: entry.request_id,
            credential_id: entry.credential_id.clone(),
            alias: entry.alias.clone(),
            tokens: entry.tokens,
            cost: entry.cost,
            succeeded: entry.succeeded,
            latency_ms: entry.latency_ms,
            failure_reason: copy_text(&entry.failure_reason),
            affinity_hit: entry.affinity_hit,
            at: entry.at,
        };
        let event = DomainEvent::UsageRecorded {
            credential_id: entry.credential_id,
            alias: entry.alias.as_str().to_owned(),
            tokens: entry.tokens,
            cost: Some(entry.cost),
            succeeded: entry.succeeded,
            latency_ms: entry.latency_ms,
            failure_reason: entry.failure_reason,
            affinity_hit: entry.affinity_hit,
        };
        (record, event)
    }

    pub fn latency_ms(&self) -> (r: u64)
        ensures
            r == self@.latency_ms,
    {
        self.latency_ms
    }

    pub fn failure_reason(&self) -> (r: Option<&str>)
        ensures
            r is Some <==> self@.failure_reason is Some,
            r matches Some(s) ==> s@ == self@.failure_reason->0@,
    {
        match &self.failure_reason {
            Some(s) => Some(s.as_str()),
            None => None,
        }
    }

    pub fn affinity_hit(&self) -> (r: bool)
        ensures
            r == self@.affinity_hit,
    {
        self.affinity_hit
    }

    pub fn request_id(&self) -> (r: &str)
        ensures
            r@ == self@.request_id@,
    {
        self.request_id.as_str()
    }

    pub fn credential_id(&self) -> (r: &CredentialId)
        ensures
            *r == self@.credential_id,
    {
        &self.credential_id
    }

    pub fn alias(&self) -> (r: &AliasName)
        ensures
            *r == self@.alias,
    {
        &self.alias
    }

    pub fn tokens(&self) -> (r: TokenUsage)
        ensures
            r == self@.tokens,
    {
        self.tokens
    }

    pub fn cost(&self) -> (r: Money)
        ensures
            r == self@.cost,
    {
        self.cost
    }

    pub fn succeeded(&self) -> (r: bool)
        ensures
            r == self@.succeeded,
    {
        self.succeeded
    }

    pub fn at(&self) -> (r: Timestamp)
        ensures
            r == self@.at,
    {
        self.at
    }
}

/// The time span that usage is summed over.
#[derive(Debug, Clone, Copy, PartialEq, Eq, Structural)]
pub enum Granularity {
    Daily,
    Hourly,
}

/// What the server settings are, seen from outside.
pub struct SettingsModel {
    pub listen: Seq<char>,
    pub access_key_hash: Seq<char>,
    pub granularity: Granularity,
    pub retention_days: u32,
    pub session_affinity: bool,
}

/// Server settings.
#[derive(Debug, PartialEq, Eq)]
pub struct Settings {
    listen: String,
    access_key_hash: String,
    granularity: Granularity,
    retention_days: u32,
    session_affinity: bool,
}

impl View for Settings {
    type V = SettingsModel;

    closed spec fn view(&self) -> SettingsModel {
        SettingsModel {
            listen: self.listen@,
            access_key_hash: self.access_key_hash@,
            granularity: self.granularity,
            retention_days: self.retention_days,
            session_affinity: self.session_affinity,
        }
    }
}

impl Clone for Settings {
    fn clone(&self) -> (r: Self)
        ensures
            r@ == self@,
    {
        proof {
            use_type_invariant(self);
        }
        Settings {
            listen: self.listen.clone(),
            access_key_hash: self.access_key_hash.clone(),
            granularity: self.granularity,
            retention_days: self.retention_days,
            session_affinity: self.session_affinity,
        }
    }
}

impl Settings {
    /// Usage is kept for at least one day.
    #[verifier::type_invariant]
    spec fn retention_positive(self) -> bool {
        self.retention_days >= 1
    }

    /// First settings: daily usage, kept ninety days, session affinity on.
    pub fn initialize(listen: &str, access_key_hash: &str) -> (r: Self)
        ensures
            r@ == (SettingsModel {
                listen: listen@,
                access_key_hash: access_key_hash@,
                granularity: Granularity::Daily,
                retention_days: 90,
                session_affinity: true,
            }),
    {
        Settings {
            listen: listen.to_owned(),
            access_key_hash: access_key_hash.to_owned(),
            granularity: Granularity::Daily,
            retention_days: 90,
            session_affinity: true,
        }
    }

    pub fn listen(&self) -> (r: &str)
        ensures
            r@ == self@.listen,
    {
        self.listen.as_str()
    }

    pub fn access_key_hash(&self) -> (r: &str)
        ensures
            r@ == self@.access_key_hash,
    {
        self.access_key_hash.as_str()
    }

    pub fn granularity(&self) -> (r: Granularity)
        ensures
            r == self@.granularity,
    {
        self.granularity
    }

    pub fn retention_days(&self) -> (r: u32)
        ensures
            r == self@.retention_days,
            r >= 1,
    {
        proof {
            use_type_invariant(self);
        }
        self.retention_days
    }

    pub fn session_affinity(&self) -> (r: bool)
        ensures
            r == self@.session_affinity,
    {
        self.session_affinity
    }

    /// Sets how many days usage is kept; zero days is refused and changes nothing.
    pub fn update_retention(&mut self, days: u32) -> (r: Result<(), SettingsError>)
        ensures
            r is Ok <==> days != 0,
            r is Ok ==> final(self)@ == (SettingsModel { retention_days: days, ..old(self)@ }),
            r is Err ==> final(self)@ == old(self)@ && (r matches Err(
                SettingsError::RetentionInvalid(v),
            ) && v@ == decimal(days as nat) + " 天"@),
    {
        if days == 0 {
            let mut value = String::new();
            push_decimal(&mut value, days as u64);
            value.append(" 天");
            return Err(SettingsError::RetentionInvalid(value));
        }
        self.retention_days = days;
        Ok(())
    }

    pub fn update_session_affinity(&mut self, enabled: bool)
        ensures
            final(self)@ == (SettingsModel { session_affinity: enabled, ..old(self)@ }),
    {
        proof {
            use_type_invariant(&*self);
        }
        self.session_affinity = enabled;
    }

    pub fn rotate_access_key(&mut self, new_hash: &str)
        ensures
            final(self)@ == (SettingsModel { access_key_hash: new_hash@, ..old(self)@ }),
    {
        proof {
            use_type_invariant(&*self);
        }
        self.access_key_hash = new_hash.to_owned();
    }
}

/// An alias target may only reference a credential group that exists.
pub fn ensure_alias_can_reference(group: Option<&CredentialGroup>, group_id: &GroupId) -> (r: Result<
    (),
    CatalogError,
>)
    ensures
        r is Ok <==> group is Some,
        r is Err ==> (r matches Err(CatalogError::GroupNotFound(id)) && id@ == group_id@),
{
    match group {
        None => Err(CatalogError::GroupNotFound(group_id.as_str().to_owned())),
        Some(_) => Ok(()),
    }
}


/// Recording the same offer twice changes nothing the second time: the kept
/// models that survived the first recording all survive the second.
pub proof fn law_offer_recording_idempotent(kept: Seq<Seq<char>>, offered: Seq<Seq<char>>)
    ensures
        still_offered(still_offered(kept, offered), offered) == still_offered(kept, offered),
{
    lemma_still_offered_subset(kept, offered);
    law_offered_selection_survives(still_offered(kept, offered), offered);
}

/// A selection of offered models survives a new recording of the same offer unchanged.
pub proof fn law_offered_selection_survives(kept: Seq<Seq<char>>, offered: Seq<Seq<char>>)
    requires
        all_offered(kept, offered),
    ensures
        still_offered(kept, offered) == kept,
    decreases kept.len(),
{
    if kept.len() > 0 {
        assert(all_offered(kept.drop_last(), offered)) by {
            assert forall|i: int| 0 <= i < kept.drop_last().len() implies offered.contains(
                #[trigger] kept.drop_last()[i],
            ) by {
                assert(kept.drop_last()[i] == kept[i]);
            }
        }
        law_offered_selection_survives(kept.drop_last(), offered);
        assert(offered.contains(kept[kept.len() - 1]));
        assert(kept.drop_last().push(kept.last()) =~= kept);
    }
}

/// After the targets of a group are removed, the alias no longer references
/// that group, and it references every other group exactly as before.
pub proof fn law_removed_group_unreferenced(
    ts: Seq<AliasTargetModel>,
    removed: Seq<char>,
    other: Seq<char>,
)
    ensures
        !mentions_group(without_group(ts, removed), removed),
        other != removed ==> (mentions_group(without_group(ts, removed), other) == mentions_group(
            ts,
            other,
        )),
    decreases ts.len(),
{
    if ts.len() > 0 {
        let init = ts.drop_last();
        law_removed_group_unreferenced(init, removed, other);
        let rest = without_group(init, removed);
        if ts.last().group != removed {
            let next = rest.push(ts.last());
            assert forall|i: int| 0 <= i < next.len() implies (#[trigger] next[i]).group != removed by {
                if i < rest.len() {
                    assert(next[i] == rest[i]);
                }
            }
        }
        if other != removed {
            if mentions_group(ts, other) {
                let k = choose|k: int| 0 <= k < ts.len() && (#[trigger] ts[k]).group == other;
                if k == ts.len() - 1 {
                    assert(without_group(ts, removed).last() == ts.last());
                } else {
                    assert(init[k] == ts[k]);
                    let j = choose|j: int| 0 <= j < rest.len() && (#[trigger] rest[j]).group == other;
                    if ts.last().group != removed {
                        assert(rest.push(ts.last())[j] == rest[j]);
                    }
                }
            }
            if mentions_group(without_group(ts, removed), other) {
                let out = without_group(ts, removed);
                let j = choose|j: int| 0 <= j < out.len() && (#[trigger] out[j]).group == other;
                if ts.last().group != removed && j == out.len() - 1 {
                    assert(ts[ts.len() - 1].group == other);
                } else {
                    if ts.last().group != removed {
                        assert(out[j] == rest[j]);
                    }
                    let k = choose|k: int| 0 <= k < init.len() && (#[trigger] init[k]).group == other;
                    assert(ts[k] == init[k]);
                }
            }
        }
    }
}

/// Removing the targets of a group a second time changes nothing.
pub proof fn law_group_removal_idempotent(ts: Seq<AliasTargetModel>, group: Seq<char>)
    ensures
        without_group(without_group(ts, group), group) == without_group(ts, group),
    decreases ts.len(),
{
    if ts.len() > 0 {
        law_group_removal_idempotent(ts.drop_last(), group);
        let rest = without_group(ts.drop_last(), group);
        if ts.last().group != group {
            let next = rest.push(ts.last());
            assert(next.drop_last() =~= rest);
            assert(next.last() == ts.last());
        }
    }
}

/// The weighted stretches of the pool do not overlap: no point lies in the
/// stretches of two different targets, so the choice at a point is unique.
pub proof fn law_weighted_choice_unique(ts: Seq<AliasTargetModel>, p: u16, point: int, k1: int, k2: int)
    requires
        0 <= k1 < ts.len(),
        0 <= k2 < ts.len(),
        in_pool(ts[k1], p),
        in_pool(ts[k2], p),
        pool_weight(ts.take(k1), p) <= point < pool_weight(ts.take(k1), p) + ts[k1].weight,
        pool_weight(ts.take(k2), p) <= point < pool_weight(ts.take(k2), p) + ts[k2].weight,
    ensures
        k1 == k2,
{
    if k1 < k2 {
        lemma_pool_weight_grows(ts, p, k1, k2);
    } else if k2 < k1 {
        lemma_pool_weight_grows(ts, p, k2, k1);
    }
}

/// Past a pool member, the prefix weight has grown by at least that member's weight.
proof fn lemma_pool_weight_grows(ts: Seq<AliasTargetModel>, p: u16, i: int, j: int)
    requires
        0 <= i < j <= ts.len(),
        in_pool(ts[i], p),
    ensures
        pool_weight(ts.take(j), p) >= pool_weight(ts.take(i), p) + ts[i].weight,
    decreases j - i,
{
    let tj = ts.take(j);
    assert(tj.drop_last() =~= ts.take(j - 1));
    if j == i + 1 {
        assert(tj.last() == ts[i]);
    } else {
        lemma_pool_weight_grows(ts, p, i, j - 1);
    }
}

/// A credential that has recovered from its cooldown at some instant would
/// have recovered at any later instant too.
pub proof fn law_recovery_stays_recovered(status: HealthStatus, at: Timestamp, later: Timestamp)
    requires
        after_cooldown(status, at) is Ready,
        !later.precedes(at),
    ensures
        after_cooldown(status, later) is Ready,
{
}

/// A postponed refresh is due no later than the retry instant and no later
/// than the expiry of the access token.
pub proof fn law_postponed_refresh_bounded(retry_at: Timestamp, expires_at: Timestamp)
    ensures
        !expires_at.precedes(retry_at.earlier_of(expires_at)),
        !retry_at.precedes(retry_at.earlier_of(expires_at)),
{
}


/// Every element that filtering keeps comes from the filtered sequence.
proof fn lemma_filter_within<A>(s: Seq<A>, pred: spec_fn(A) -> bool)
    ensures
        forall|j: int| 0 <= j < s.filter(pred).len() ==> s.contains(#[trigger] s.filter(pred)[j]),
    decreases s.len(),
{
    reveal(Seq::filter);
    if s.len() > 0 {
        lemma_filter_within(s.drop_last(), pred);
        let rest = s.drop_last().filter(pred);
        assert forall|j: int| 0 <= j < s.filter(pred).len() implies s.contains(
            #[trigger] s.filter(pred)[j],
        ) by {
            if j < rest.len() {
                assert(s.filter(pred)[j] == rest[j]);
                let k = choose|k: int| 0 <= k < s.drop_last().len() && s.drop_last()[k] == rest[j];
                assert(s[k] == s.drop_last()[k]);
            } else {
                assert(s.filter(pred)[j] == s[s.len() - 1]);
            }
        }
    }
}

/// Recording an offer keeps exactly the kept models that are still offered, in
/// their order: every kept model that is still offered survives, and every
/// survivor is a kept model that is still offered.
pub proof fn law_offer_keeps_exactly_the_offered(kept: Seq<Seq<char>>, offered: Seq<Seq<char>>)
    ensures
        still_offered(kept, offered) == kept.filter(|m: Seq<char>| offered.contains(m)),
        forall|i: int|
            0 <= i < kept.len() && offered.contains(kept[i]) ==> still_offered(kept, offered).contains(
                #[trigger] kept[i],
            ),
        forall|j: int|
            0 <= j < still_offered(kept, offered).len() ==> offered.contains(
                #[trigger] still_offered(kept, offered)[j],
            ) && kept.contains(still_offered(kept, offered)[j]),
        still_offered(kept, offered).len() <= kept.len(),
{
    lemma_still_offered_is_filter(kept, offered);
    let pred = |m: Seq<char>| offered.contains(m);
    let out = kept.filter(pred);
    assert forall|i: int| 0 <= i < kept.len() && offered.contains(kept[i]) implies out.contains(
        #[trigger] kept[i],
    ) by {
        kept.lemma_filter_contains(pred, i);
    }
    lemma_filter_within(kept, pred);
    assert forall|j: int| 0 <= j < out.len() implies offered.contains(#[trigger] out[j])
        && kept.contains(out[j]) by {
        kept.lemma_filter_pred(pred, j);
    }
    kept.lemma_filter_len(pred);
}

proof fn lemma_still_offered_is_filter(kept: Seq<Seq<char>>, offered: Seq<Seq<char>>)
    ensures
        still_offered(kept, offered) == kept.filter(|m: Seq<char>| offered.contains(m)),
    decreases kept.len(),
{
    reveal(Seq::filter);
    if kept.len() > 0 {
        lemma_still_offered_is_filter(kept.drop_last(), offered);
    }
}

/// Removing a group's targets keeps exactly the targets outside that group, in
/// their order: every target outside the group survives, and every survivor is
/// one of the alias's targets outside the group.
pub proof fn law_group_removal_keeps_the_rest(ts: Seq<AliasTargetModel>, group: Seq<char>)
    ensures
        without_group(ts, group) == ts.filter(|t: AliasTargetModel| t.group != group),
        forall|i: int|
            0 <= i < ts.len() && ts[i].group != group ==> without_group(ts, group).contains(
                #[trigger] ts[i],
            ),
        forall|j: int|
            0 <= j < without_group(ts, group).len() ==> (#[trigger] without_group(ts, group)[j]).group
                != group && ts.contains(without_group(ts, group)[j]),
        without_group(ts, group).len() <= ts.len(),
{
    lemma_without_group_is_filter(ts, group);
    let pred = |t: AliasTargetModel| t.group != group;
    let out = ts.filter(pred);
    assert forall|i: int| 0 <= i < ts.len() && ts[i].group != group implies out.contains(
        #[trigger] ts[i],
    ) by {
        ts.lemma_filter_contains(pred, i);
    }
    lemma_filter_within(ts, pred);
    assert forall|j: int| 0 <= j < out.len() implies (#[trigger] out[j]).group != group
        && ts.contains(out[j]) by {
        ts.lemma_filter_pred(pred, j);
    }
    ts.lemma_filter_len(pred);
}

proof fn lemma_without_group_is_filter(ts: Seq<AliasTargetModel>, group: Seq<char>)
    ensures
        without_group(ts, group) == ts.filter(|t: AliasTargetModel| t.group != group),
    decreases ts.len(),
{
    reveal(Seq::filter);
    if ts.len() > 0 {
        lemma_without_group_is_filter(ts.drop_last(), group);
    }
}

/// Selection draws from the best priority: when some target participates, the
/// pool's priority is that of a participating target and no participating
/// target has a smaller one; when none participates there is no pool.
pub proof fn law_pool_has_the_best_priority(ts: Seq<AliasTargetModel>)
    ensures
        best_priority(ts) is None <==> forall|i: int| 0 <= i < ts.len() ==> !participates(
            #[trigger] ts[i],
        ),
        best_priority(ts) matches Some(p) ==> {
            &&& exists|i: int| 0 <= i < ts.len() && participates(#[trigger] ts[i]) && ts[i].priority == p
            &&& forall|i: int| 0 <= i < ts.len() && participates(#[trigger] ts[i]) ==> p <= ts[i].priority
        },
    decreases ts.len(),
{
    if ts.len() > 0 {
        let init = ts.drop_last();
        law_pool_has_the_best_priority(init);
        let last = ts.len() - 1;
        assert(ts[last] == ts.last());
        assert forall|i: int| 0 <= i < init.len() implies init[i] == #[trigger] ts[i] by {}
        if best_priority(ts) is None {
            assert forall|i: int| 0 <= i < ts.len() implies !participates(#[trigger] ts[i]) by {
                if i < last {
                    assert(init[i] == ts[i]);
                }
            }
        } else {
            let p = best_priority(ts)->0;
            if best_priority(init) is Some && (!participates(ts.last()) || ts.last().priority
                >= best_priority(init)->0) {
                let i = choose|i: int| 0 <= i < init.len() && participates(#[trigger] init[i])
                    && init[i].priority == p;
                assert(ts[i] == init[i]);
            } else {
                assert(participates(ts[last]) && ts[last].priority == p);
            }
            assert forall|i: int| 0 <= i < ts.len() && participates(#[trigger] ts[i]) implies p
                <= ts[i].priority by {
                if i < last {
                    assert(init[i] == ts[i]);
                    assert(participates(init[i]));
                }
            }
        }
        if forall|i: int| 0 <= i < ts.len() ==> !participates(#[trigger] ts[i]) {
            assert forall|i: int| 0 <= i < init.len() implies !participates(#[trigger] init[i]) by {
                assert(ts[i] == init[i]);
            }
            assert(!participates(ts[last]));
        }
    }
}

/// The supported upstreams are OpenAI, Anthropic, Gemini and DeepSeek; every
/// upstream that offers subscriptions, and every upstream with a protocol of
/// its own, is among them.
pub proof fn law_supported_upstreams(name: Seq<char>)
    ensures
        supported_upstream(name) <==> (name == "OpenAI"@ || name == "Anthropic"@ || name == "Gemini"@
            || name == "DeepSeek"@),
        offers_subscription(name) ==> supported_upstream(name),
        protocol_of(name) != Protocol::OpenAiChat ==> supported_upstream(name),
{
}

/// The pool weight of a prefix never exceeds that of the whole sequence.
proof fn lemma_pool_weight_prefix(ts: Seq<AliasTargetModel>, p: u16, k: int)
    requires
        0 <= k <= ts.len(),
    ensures
        pool_weight(ts.take(k), p) <= pool_weight(ts, p),
    decreases ts.len(),
{
    if k < ts.len() {
        assert(ts.drop_last().take(k) =~= ts.take(k));
        lemma_pool_weight_prefix(ts.drop_last(), p, k);
    } else {
        assert(ts.take(k) =~= ts);
    }
}

proof fn lemma_still_offered_subset(kept: Seq<Seq<char>>, offered: Seq<Seq<char>>)
    ensures
        all_offered(still_offered(kept, offered), offered),
    decreases kept.len(),
{
    if kept.len() > 0 {
        lemma_still_offered_subset(kept.drop_last(), offered);
        let rest = still_offered(kept.drop_last(), offered);
        if offered.contains(kept.last()) {
            assert forall|i: int| 0 <= i < rest.push(kept.last()).len() implies offered.contains(
                #[trigger] rest.push(kept.last())[i],
            ) by {
                if i < rest.len() {
                    assert(rest.push(kept.last())[i] == rest[i]);
                }
            }
        }
    }
}

} // verus!
