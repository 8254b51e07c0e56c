//! Value objects.

use vstd::prelude::*;

use crate::text::{ascii_lower, is_blank, is_blank_text, push_ascii_lower, push_char};

verus! {

/// A point in time (UTC): whole seconds since the Unix epoch and the
/// nanoseconds within that second. A leap second shows as `nanos` of one
/// billion or more. Instants are ordered by seconds, then by nanoseconds.
#[derive(Debug, Clone, Copy, PartialEq, Eq, Structural, Hash)]
pub struct Timestamp {
    pub secs: i64,
    pub nanos: u32,
}

impl Timestamp {
    /// `self` comes strictly before `other`.
    pub open spec fn precedes(self, other: Timestamp) -> bool {
        self.secs < other.secs || (self.secs == other.secs && self.nanos < other.nanos)
    }

    /// The earlier of two instants (the first one when they are equal), as `Ord::min` picks.
    pub open spec fn earlier_of(self, other: Timestamp) -> Timestamp {
        if other.precedes(self) {
            other
        } else {
            self
        }
    }

    pub fn new(secs: i64, nanos: u32) -> (r: Timestamp)
        ensures
            r == (Timestamp { secs, nanos }),
    {
        Timestamp { secs, nanos }
    }

    pub fn is_before(&self, other: &Timestamp) -> (r: bool)
        ensures
            r == self.precedes(*other),
    {
        self.secs < other.secs || (self.secs == other.secs && self.nanos < other.nanos)
    }

    pub fn earliest(self, other: Timestamp) -> (r: Timestamp)
        ensures
            r == self.earlier_of(other),
    {
        if other.is_before(&self) {
            other
        } else {
            self
        }
    }
}

/// Identifier of a credential.
#[derive(Debug, Eq, Hash)]
pub struct CredentialId(String);

impl View for CredentialId {
    type V = Seq<char>;

    closed spec fn view(&self) -> Seq<char> {
        self.0@
    }
}

impl Clone for CredentialId {
    fn clone(&self) -> (r: Self)
        ensures
            r == *self,
    {
        CredentialId(self.0.clone())
    }
}

impl PartialEq for CredentialId {
    fn eq(&self, other: &Self) -> (r: bool) {
        self.0 == other.0
    }
}

impl vstd::std_specs::cmp::PartialEqSpecImpl for CredentialId {
    open spec fn obeys_eq_spec() -> bool {
        true
    }

    open spec fn eq_spec(&self, other: &Self) -> bool {
        self@ == other@
    }
}

impl CredentialId {
    pub fn new(raw: &str) -> (r: Self)
        ensures
            r@ == raw@,
    {
        CredentialId(raw.to_owned())
    }

    pub fn as_str(&self) -> (r: &str)
        ensures
            r@ == self@,
    {
        self.0.as_str()
    }
}

/// Name of a model alias, the only model name a client sees.
#[derive(Debug, Eq, Hash)]
pub struct AliasName(String);

impl View for AliasName {
    type V = Seq<char>;

    closed spec fn view(&self) -> Seq<char> {
        self.0@
    }
}

impl Clone for AliasName {
    fn clone(&self) -> (r: Self)
        ensures
            r == *self,
    {
        AliasName(self.0.clone())
    }
}

impl PartialEq for AliasName {
    fn eq(&self, other: &Self) -> (r: bool) {
        self.0 == other.0
    }
}

impl vstd::std_specs::cmp::PartialEqSpecImpl for AliasName {
    open spec fn obeys_eq_spec() -> bool {
        true
    }

    open spec fn eq_spec(&self, other: &Self) -> bool {
        self@ == other@
    }
}

impl AliasName {
    /// Rejects a blank name.
    pub fn new(raw: &str) -> (r: Result<Self, InvalidValue>)
        ensures
            r is Ok <==> !is_blank_text(raw@),
            r matches Ok(v) ==> v@ == raw@,
            r matches Err(e) ==> e matches InvalidValue::Blank(f) && f@ == "别名"@,
    {
        if is_blank(raw) {
            return Err(InvalidValue::Blank("别名"));
        }
        Ok(AliasName(raw.to_owned()))
    }

    pub fn as_str(&self) -> (r: &str)
        ensures
            r@ == self@,
    {
        self.0.as_str()
    }
}

/// Name of an upstream provider, such as `OpenAI`.
#[derive(Debug, Eq, Hash)]
pub struct Provider(String);

impl View for Provider {
    type V = Seq<char>;

    closed spec fn view(&self) -> Seq<char> {
        self.0@
    }
}

impl Clone for Provider {
    fn clone(&self) -> (r: Self)
        ensures
            r == *self,
    {
        Provider(self.0.clone())
    }
}

impl PartialEq for Provider {
    fn eq(&self, other: &Self) -> (r: bool) {
        self.0 == other.0
    }
}

impl vstd::std_specs::cmp::PartialEqSpecImpl for Provider {
    open spec fn obeys_eq_spec() -> bool {
        true
    }

    open spec fn eq_spec(&self, other: &Self) -> bool {
        self@ == other@
    }
}

/// Providers whose subscriptions can be authorized.
pub open spec fn offers_subscription(name: Seq<char>) -> bool {
    name == "OpenAI"@ || name == "Anthropic"@
}

/// The wire protocol a provider speaks unless told otherwise.
pub open spec fn protocol_of(name: Seq<char>) -> Protocol {
    if name == "Anthropic"@ {
        Protocol::AnthropicMessages
    } else if name == "Gemini"@ {
        Protocol::Gemini
    } else {
        Protocol::OpenAiChat
    }
}

impl Provider {
    /// Rejects a blank name.
    pub fn new(raw: &str) -> (r: Result<Self, InvalidValue>)
        ensures
            r is Ok <==> !is_blank_text(raw@),
            r matches Ok(v) ==> v@ == raw@,
            r matches Err(e) ==> e matches InvalidValue::Blank(f) && f@ == "上游"@,
    {
        if is_blank(raw) {
            return Err(InvalidValue::Blank("上游"));
        }
        Ok(Provider(raw.to_owned()))
    }

    pub fn as_str(&self) -> (r: &str)
        ensures
            r@ == self@,
    {
        self.0.as_str()
    }

    pub fn supports_subscription(&self) -> (r: bool)
        ensures
            r == offers_subscription(self@),
    {
        crate::text::same_text(self.0.as_str(), "OpenAI") || crate::text::same_text(
            self.0.as_str(),
            "Anthropic",
        )
    }

    pub fn default_protocol(&self) -> (r: Protocol)
        ensures
            r == protocol_of(self@),
    {
        if crate::text::same_text(self.0.as_str(), "Anthropic") {
            Protocol::AnthropicMessages
        } else if crate::text::same_text(self.0.as_str(), "Gemini") {
            Protocol::Gemini
        } else {
            Protocol::OpenAiChat
        }
    }
}

/// The four wire protocols the gateway speaks.
#[derive(Debug, Clone, Copy, PartialEq, Eq, Structural)]
pub enum Protocol {
    OpenAiChat,
    OpenAiResponses,
    AnthropicMessages,
    Gemini,
}

pub open spec fn protocol_label(p: Protocol) -> Seq<char> {
    match p {
        Protocol::OpenAiChat => "OpenAI Chat Completions"@,
        Protocol::OpenAiResponses => "OpenAI Responses"@,
        Protocol::AnthropicMessages => "Anthropic Messages"@,
        Protocol::Gemini => "Gemini"@,
    }
}

impl Protocol {
    /// The protocol's name as shown to people.
    pub fn label(self) -> (r: &'static str)
        ensures
            r@ == protocol_label(self),
    {
        match self {
            Protocol::OpenAiChat => "OpenAI Chat Completions",
            Protocol::OpenAiResponses => "OpenAI Responses",
            Protocol::AnthropicMessages => "Anthropic Messages",
            Protocol::Gemini => "Gemini",
        }
    }
}

/// Identifier of a model offered by an upstream.
#[derive(Debug, Eq, Hash)]
pub struct UpstreamModelId(String);

impl View for UpstreamModelId {
    type V = Seq<char>;

    closed spec fn view(&self) -> Seq<char> {
        self.0@
    }
}

impl Clone for UpstreamModelId {
    fn clone(&self) -> (r: Self)
        ensures
            r == *self,
    {
        UpstreamModelId(self.0.clone())
    }
}

impl PartialEq for UpstreamModelId {
    fn eq(&self, other: &Self) -> (r: bool) {
        self.0 == other.0
    }
}

impl vstd::std_specs::cmp::PartialEqSpecImpl for UpstreamModelId {
    open spec fn obeys_eq_spec() -> bool {
        true
    }

    open spec fn eq_spec(&self, other: &Self) -> bool {
        self@ == other@
    }
}

impl UpstreamModelId {
    /// Rejects a blank name.
    pub fn new(raw: &str) -> (r: Result<Self, InvalidValue>)
        ensures
            r is Ok <==> !is_blank_text(raw@),
            r matches Ok(v) ==> v@ == raw@,
            r matches Err(e) ==> e matches InvalidValue::Blank(f) && f@ == "上游模型"@,
    {
        if is_blank(raw) {
            return Err(InvalidValue::Blank("上游模型"));
        }
        Ok(UpstreamModelId(raw.to_owned()))
    }

    pub fn as_str(&self) -> (r: &str)
        ensures
            r@ == self@,
    {
        self.0.as_str()
    }
}

/// Identifier of one target of an alias.
#[derive(Debug, Eq, Hash)]
pub struct AliasTargetId(String);

impl View for AliasTargetId {
    type V = Seq<char>;

    closed spec fn view(&self) -> Seq<char> {
        self.0@
    }
}

impl Clone for AliasTargetId {
    fn clone(&self) -> (r: Self)
        ensures
            r == *self,
    {
        AliasTargetId(self.0.clone())
    }
}

impl PartialEq for AliasTargetId {
    fn eq(&self, other: &Self) -> (r: bool) {
        self.0 == other.0
    }
}

impl vstd::std_specs::cmp::PartialEqSpecImpl for AliasTargetId {
    open spec fn obeys_eq_spec() -> bool {
        true
    }

    open spec fn eq_spec(&self, other: &Self) -> bool {
        self@ == other@
    }
}

impl AliasTargetId {
    pub fn new(raw: &str) -> (r: Self)
        ensures
            r@ == raw@,
    {
        AliasTargetId(raw.to_owned())
    }

    pub fn as_str(&self) -> (r: &str)
        ensures
            r@ == self@,
    {
        self.0.as_str()
    }
}

/// Identifier of a credential group.
#[derive(Debug, Eq, Hash)]
pub struct GroupId(String);

impl View for GroupId {
    type V = Seq<char>;

    closed spec fn view(&self) -> Seq<char> {
        self.0@
    }
}

impl Clone for GroupId {
    fn clone(&self) -> (r: Self)
        ensures
            r == *self,
    {
        GroupId(self.0.clone())
    }
}

impl PartialEq for GroupId {
    fn eq(&self, other: &Self) -> (r: bool) {
        self.0 == other.0
    }
}

impl vstd::std_specs::cmp::PartialEqSpecImpl for GroupId {
    open spec fn obeys_eq_spec() -> bool {
        true
    }

    open spec fn eq_spec(&self, other: &Self) -> bool {
        self@ == other@
    }
}

/// The group of a provider: `g-` followed by the provider's name in ASCII lowercase.
pub open spec fn group_of(provider: Seq<char>) -> Seq<char> {
    "g-"@ + ascii_lower(provider)
}

impl GroupId {
    pub fn new(raw: &str) -> (r: Self)
        ensures
            r@ == raw@,
    {
        GroupId(raw.to_owned())
    }

    pub fn as_str(&self) -> (r: &str)
        ensures
            r@ == self@,
    {
        self.0.as_str()
    }

    /// A group is determined by its provider.
    pub fn for_provider(provider: &Provider) -> (r: Self)
        ensures
            r@ == group_of(provider@),
    {
        let mut id = String::from_str("g-");
        push_ascii_lower(&mut id, provider.as_str());
        GroupId(id)
    }
}

/// Scheduling priority: the smaller the value, the earlier it is tried. Never zero.
#[derive(Debug, Clone, Copy, PartialEq, Eq, Structural, PartialOrd, Ord, Hash)]
pub struct Priority(u16);

impl View for Priority {
    type V = u16;

    closed spec fn view(&self) -> u16 {
        self.0
    }
}

impl Priority {
    #[verifier::type_invariant]
    spec fn positive(self) -> bool {
        self.0 >= 1
    }

    /// Rejects zero.
    pub fn new(raw: u16) -> (r: Result<Self, InvalidValue>)
        ensures
            r is Ok <==> raw != 0,
            r matches Ok(p) ==> p@ == raw,
            r matches Err(e) ==> e matches InvalidValue::OutOfRange(f) && f@ == "优先级"@,
    {
        if raw == 0 {
            return Err(InvalidValue::OutOfRange("优先级"));
        }
        Ok(Priority(raw))
    }

    pub fn value(&self) -> (r: u16)
        ensures
            r == self@,
            r >= 1,
    {
        proof {
            use_type_invariant(self);
        }
        self.0
    }
}

impl Default for Priority {
    fn default() -> (r: Self)
        ensures
            r@ == 1,
    {
        Priority(1)
    }
}

/// Share in weighted selection; zero takes the target out of rotation.
#[derive(Debug, Clone, Copy, PartialEq, Eq, Structural, Hash)]
pub struct Weight(u32);

impl View for Weight {
    type V = u32;

    closed spec fn view(&self) -> u32 {
        self.0
    }
}

impl Weight {
    pub fn new(raw: u32) -> (r: Self)
        ensures
            r@ == raw,
    {
        Weight(raw)
    }

    pub fn value(&self) -> (r: u32)
        ensures
            r == self@,
    {
        self.0
    }

    pub fn is_participating(&self) -> (r: bool)
        ensures
            r == (self@ > 0),
    {
        self.0 > 0
    }
}

impl Default for Weight {
    fn default() -> (r: Self)
        ensures
            r@ == 1,
    {
        Weight(1)
    }
}

/// Secret in plain text, held only while it is checked or written.
#[derive(Eq)]
pub struct Secret(String);

impl View for Secret {
    type V = Seq<char>;

    closed spec fn view(&self) -> Seq<char> {
        self.0@
    }
}

impl Clone for Secret {
    fn clone(&self) -> (r: Self)
        ensures
            r == *self,
    {
        Secret(self.0.clone())
    }
}

impl PartialEq for Secret {
    fn eq(&self, other: &Self) -> (r: bool) {
        self.0 == other.0
    }
}

impl vstd::std_specs::cmp::PartialEqSpecImpl for Secret {
    open spec fn obeys_eq_spec() -> bool {
        true
    }

    open spec fn eq_spec(&self, other: &Self) -> bool {
        self@ == other@
    }
}

/// `n` mask dots.
pub open spec fn dots(n: nat) -> Seq<char> {
    Seq::new(n, |i: int| '•')
}

/// A secret as shown: its first and last four characters with six dots between;
/// a secret of at most eight characters shows as one dot per character.
pub open spec fn masked(s: Seq<char>) -> Seq<char> {
    if s.len() <= 8 {
        dots(s.len())
    } else {
        s.take(4) + dots(6) + s.skip(s.len() - 4)
    }
}

impl Secret {
    /// Rejects a blank secret.
    pub fn new(raw: &str) -> (r: Result<Self, InvalidValue>)
        ensures
            r is Ok <==> !is_blank_text(raw@),
            r matches Ok(v) ==> v@ == raw@,
            r matches Err(e) ==> e matches InvalidValue::Blank(f) && f@ == "密钥"@,
    {
        if is_blank(raw) {
            return Err(InvalidValue::Blank("密钥"));
        }
        Ok(Secret(raw.to_owned()))
    }

    pub fn expose(&self) -> (r: &str)
        ensures
            r@ == self@,
    {
        self.0.as_str()
    }

    /// Keeps the first and last four characters and replaces the rest by dots.
    pub fn mask(&self) -> (r: String)
        ensures
            r@ == masked(self@),
    {
        let text = self.0.as_str();
        let n = text.unicode_len();
        let mut out = String::new();
        if n <= 8 {
            let mut i: usize = 0;
            while i < n
                invariant
                    i <= n,
                    out@ == dots(i as nat),
                decreases n - i,
            {
                push_char(&mut out, '•');
                assert(dots((i + 1) as nat) =~= dots(i as nat).push('•'));
                i = i + 1;
            }
        } else {
            out.append(text.substring_char(0, 4));
            let mut i: usize = 0;
            while i < 6
                invariant
                    i <= 6,
                    out@ == text@.take(4) + dots(i as nat),
                decreases 6 - i,
            {
                push_char(&mut out, '•');
                assert(dots((i + 1) as nat) =~= dots(i as nat).push('•'));
                assert(text@.take(4) + dots((i + 1) as nat) =~= (text@.take(4) + dots(i as nat)).push('•'));
                i = i + 1;
            }
            out.append(text.substring_char(n - 4, n));
            assert(text@.subrange(0, 4) =~= text@.take(4));
            assert(text@.subrange(n - 4, n as int) =~= text@.skip(n - 4));
        }
        out
    }
}

/// Health of a credential.
#[derive(Debug, PartialEq, Eq)]
pub enum HealthStatus {
    Ready,
    Cooling { reason: String, recover_at: Timestamp },
    Disabled,
    Failed { reason: String },
}

impl Clone for HealthStatus {
    fn clone(&self) -> (r: Self)
        ensures
            r == *self,
    {
        match self {
            HealthStatus::Ready => HealthStatus::Ready,
            HealthStatus::Cooling { reason, recover_at } => HealthStatus::Cooling {
                reason: reason.clone(),
                recover_at: *recover_at,
            },
            HealthStatus::Disabled => HealthStatus::Disabled,
            HealthStatus::Failed { reason } => HealthStatus::Failed { reason: reason.clone() },
        }
    }
}

/// The status after waiting until `now`: a cooldown that has run out is over.
pub open spec fn after_cooldown(status: HealthStatus, now: Timestamp) -> HealthStatus {
    match status {
        HealthStatus::Cooling { recover_at, .. } if !now.precedes(recover_at) => HealthStatus::Ready,
        _ => status,
    }
}

impl HealthStatus {
    pub fn is_available(&self) -> (r: bool)
        ensures
            r == (*self is Ready),
    {
        match self {
            HealthStatus::Ready => true,
            _ => false,
        }
    }

    pub fn is_failed(&self) -> (r: bool)
        ensures
            r == (*self is Failed),
    {
        match self {
            HealthStatus::Failed { .. } => true,
            _ => false,
        }
    }

    /// A cooling credential is ready again from its recovery instant on;
    /// any other status stays as it is.
    pub fn recovered_after_cooldown(&self, now: Timestamp) -> (r: HealthStatus)
        ensures
            r == after_cooldown(*self, now),
    {
        match self {
            HealthStatus::Cooling { recover_at, .. } => {
                if now.is_before(recover_at) {
                    self.clone()
                } else {
                    HealthStatus::Ready
                }
            },
            _ => self.clone(),
        }
    }
}

/// How a credential group picks among its credentials.
#[derive(Debug, Clone, Copy, PartialEq, Eq, Structural)]
pub enum SelectionStrategy {
    RoundRobin,
    Weighted,
    FillFirst,
}

impl Default for SelectionStrategy {
    fn default() -> (r: Self)
        ensures
            r == SelectionStrategy::RoundRobin,
    {
        SelectionStrategy::RoundRobin
    }
}

/// Token counts of one call.
#[derive(Debug, Clone, Copy, PartialEq, Eq, Structural)]
pub struct TokenUsage {
    pub input: u64,
    pub output: u64,
    pub cache_read: u64,
    pub cache_write: u64,
}

impl Default for TokenUsage {
    fn default() -> (r: Self)
        ensures
            r == (TokenUsage { input: 0, output: 0, cache_read: 0, cache_write: 0 }),
    {
        TokenUsage { input: 0, output: 0, cache_read: 0, cache_write: 0 }
    }
}

impl TokenUsage {
    pub open spec fn sum(self) -> int {
        self.input + self.output + self.cache_read + self.cache_write
    }

    pub fn total(&self) -> (r: u64)
        requires
            self.sum() <= u64::MAX,
        ensures
            r == self.sum(),
    {
        self.input + self.output + self.cache_read + self.cache_write
    }
}

/// An amount in micro-dollars, so that sums are exact.
#[derive(Debug, Clone, Copy, PartialEq, Eq, Structural)]
pub struct Money {
    pub micro_usd: i64,
}

impl Default for Money {
    fn default() -> (r: Self)
        ensures
            r.micro_usd == 0,
    {
        Money { micro_usd: 0 }
    }
}

impl Money {
    pub fn from_micro_usd(micro_usd: i64) -> (r: Self)
        ensures
            r.micro_usd == micro_usd,
    {
        Money { micro_usd }
    }

    pub fn zero() -> (r: Self)
        ensures
            r.micro_usd == 0,
    {
        Money { micro_usd: 0 }
    }

    pub fn add(&self, other: Self) -> (r: Self)
        requires
            i64::MIN <= self.micro_usd + other.micro_usd <= i64::MAX,
        ensures
            r.micro_usd == self.micro_usd + other.micro_usd,
    {
        Money { micro_usd: self.micro_usd + other.micro_usd }
    }
}

/// A value that a constructor refused; the payload names the field.
#[derive(Debug, Clone, Copy, PartialEq, Eq)]
pub enum InvalidValue {
    Blank(&'static str),
    OutOfRange(&'static str),
}

pub open spec fn invalid_value_text(v: InvalidValue) -> Seq<char> {
    match v {
        InvalidValue::Blank(field) => field@ + "不能为空"@,
        InvalidValue::OutOfRange(field) => field@ + "取值非法"@,
    }
}

impl InvalidValue {
    /// The message shown for this refusal.
    pub fn to_string(&self) -> (r: String)
        ensures
            r@ == invalid_value_text(*self),
    {
        match self {
            InvalidValue::Blank(field) => {
                let mut s = String::from_str(field);
                s.append("不能为空");
                s
            },
            InvalidValue::OutOfRange(field) => {
                let mut s = String::from_str(field);
                s.append("取值非法");
                s
            },
        }
    }
}

/// An authorization that was started and waits for its callback.
#[derive(Debug, Clone, PartialEq, Eq)]
pub struct PendingAuthorization {
    pub state: String,
    pub code_verifier: String,
    pub provider: String,
    pub expires_at: Timestamp,
}

impl PendingAuthorization {
    /// Consumes the pending authorization for the callback's `state` at `now`:
    /// a different state is invalid; one whose expiry is not after `now` has expired.
    pub fn consume(self, state: &str, now: Timestamp) -> (r: Result<
        PendingAuthorization,
        crate::domain::errors::AuthorizationError,
    >)
        ensures
            self.state@ != state@ ==> r == Err::<PendingAuthorization, _>(
                crate::domain::errors::AuthorizationError::Invalid,
            ),
            self.state@ == state@ && !now.precedes(self.expires_at) ==> r == Err::<
                PendingAuthorization,
                _,
            >(crate::domain::errors::AuthorizationError::Expired),
            self.state@ == state@ && now.precedes(self.expires_at) ==> r == Ok::<
                _,
                crate::domain::errors::AuthorizationError,
            >(self),
    {
        if !crate::text::same_text(self.state.as_str(), state) {
            return Err(crate::domain::errors::AuthorizationError::Invalid);
        }
        if !now.is_before(&self.expires_at) {
            return Err(crate::domain::errors::AuthorizationError::Expired);
        }
        Ok(self)
    }
}

/// When and how often a failed upstream call is tried again.
#[derive(Debug, Clone, Copy, PartialEq, Eq, Structural)]
pub struct RetryPolicy {
    pub max_rounds: u32,
}

impl Default for RetryPolicy {
    fn default() -> (r: Self)
        ensures
            r.max_rounds == 3,
    {
        RetryPolicy { max_rounds: 3 }
    }
}

/// Rate limiting and server-side failures are worth another try.
pub open spec fn retryable_status(status: u16) -> bool {
    status == 429 || (500 <= status && status <= 599)
}

impl RetryPolicy {
    pub fn is_retryable_status(status: u16) -> (r: bool)
        ensures
            r == retryable_status(status),
    {
        status == 429 || (500 <= status && status <= 599)
    }
}

/// Two providers share a group exactly when their names agree up to ASCII case.
pub proof fn law_group_follows_provider(a: Seq<char>, b: Seq<char>)
    ensures
        (group_of(a) == group_of(b)) == (ascii_lower(a) == ascii_lower(b)),
{
    reveal_strlit("g-");
    if group_of(a) == group_of(b) {
        assert(ascii_lower(a) =~= group_of(a).skip(2));
        assert(ascii_lower(b) =~= group_of(b).skip(2));
    }
}

/// A masked secret shows at most eight of its characters: a short secret shows
/// none, a longer one its first four and last four around six dots.
pub proof fn law_mask_shape(s: Seq<char>)
    ensures
        masked(s).len() == if s.len() <= 8 { s.len() } else { 14 },
        s.len() <= 8 ==> forall|i: int| 0 <= i < s.len() ==> #[trigger] masked(s)[i] == '•',
        s.len() > 8 ==> {
            &&& masked(s).take(4) == s.take(4)
            &&& masked(s).skip(10) == s.skip(s.len() - 4)
            &&& forall|i: int| 4 <= i < 10 ==> #[trigger] masked(s)[i] == '•'
        },
{
    if s.len() > 8 {
        assert(masked(s).take(4) =~= s.take(4));
        assert(masked(s).skip(10) =~= s.skip(s.len() - 4));
    }
}

/// Only OpenAI and Anthropic subscriptions can be authorized, and each of them
/// speaks its own default protocol; an upstream whose default protocol is
/// Gemini's offers no subscription.
pub proof fn law_subscription_upstreams(name: Seq<char>)
    ensures
        offers_subscription(name) <==> (name == "OpenAI"@ || name == "Anthropic"@),
        offers_subscription(name) ==> (protocol_of(name) == Protocol::OpenAiChat || protocol_of(
            name,
        ) == Protocol::AnthropicMessages),
        protocol_of(name) == Protocol::Gemini ==> !offers_subscription(name),
{
    reveal_strlit("OpenAI");
    reveal_strlit("Anthropic");
    reveal_strlit("Gemini");
    if name == "OpenAI"@ {
        assert("OpenAI"@ != "Anthropic"@ && "OpenAI"@ != "Gemini"@) by {
            assert("OpenAI"@[0] != "Anthropic"@[0]);
            assert("OpenAI"@[0] != "Gemini"@[0]);
        }
    }
    if name == "Anthropic"@ {
        assert("Anthropic"@ != "Gemini"@) by {
            assert("Anthropic"@[0] != "Gemini"@[0]);
        }
    }
}

} // verus!
