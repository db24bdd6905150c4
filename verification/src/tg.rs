//! Protocol types between tokengateway and cloud-manager: the configuration
//! that sync hands down (`GET /api/tg/sync`) and the call records that are
//! reported back (`POST /api/tg/calls`).
use vstd::prelude::*;
use vstd::std_specs::cmp::{PartialEqSpec, PartialEqSpecImpl};

verus! {

/// The value of a switch that a payload leaves out: on.
pub fn default_true() -> (b: bool)
    ensures
        b,
{
    true
}

/// Whether two texts are the same sequence of characters.
fn same_text(a: &str, b: &str) -> (r: bool)
    ensures
        r == (a@ == b@),
{
    let n = a.unicode_len();
    if n != b.unicode_len() {
        return false;
    }
    let mut i: usize = 0;
    while i < n
        invariant
            n == a@.len(),
            n == b@.len(),
            i <= n,
            forall|j: int| 0 <= j < i ==> a@[j] == b@[j],
        decreases n - i,
    {
        if a.get_char(i) != b.get_char(i) {
            return false;
        }
        i = i + 1;
    }
    assert(a@ =~= b@);
    true
}

// ── Tiers ─────────────────────────────────────────────────
/// Provider tier, for routing order and dashboard grouping.
#[derive(Debug, Clone, Copy, PartialEq, Eq, Structural)]
pub enum Tier {
    Local,
    Free,
    Paid,
}

impl Tier {
    /// The name of the tier on the wire and in text.
    pub open spec fn name(self) -> Seq<char> {
        match self {
            Tier::Local => "local"@,
            Tier::Free => "free"@,
            Tier::Paid => "paid"@,
        }
    }

    /// The tier as text: `local`, `free` or `paid`.
    pub fn to_string(&self) -> (s: String)
        ensures
            s@ == self.name(),
            *self is Local ==> s@ == "local"@,
            *self is Free ==> s@ == "free"@,
            *self is Paid ==> s@ == "paid"@,
    {
        match self {
            Tier::Local => "local".to_owned(),
            Tier::Free => "free".to_owned(),
            Tier::Paid => "paid".to_owned(),
        }
    }

    /// Whether `other` is the name of this tier.
    fn eq_str(&self, other: &str) -> (r: bool)
        ensures
            r == (other@ == self.name()),
            r == ((*self is Local && other@ == "local"@) || (*self is Free && other@ == "free"@) || (
            *self is Paid && other@ == "paid"@)),
    {
        match self {
            Tier::Local => same_text(other, "local"),
            Tier::Free => same_text(other, "free"),
            Tier::Paid => same_text(other, "paid"),
        }
    }
}

impl<'a> PartialEq<&'a str> for Tier {
    /// `tier == "local"`: whether the text is the tier's name.
    fn eq(&self, other: &&'a str) -> (r: bool) {
        self.eq_str(*other)
    }
}

impl<'a> PartialEqSpecImpl<&'a str> for Tier {
    open spec fn obeys_eq_spec() -> bool {
        true
    }

    open spec fn eq_spec(&self, other: &&'a str) -> bool {
        (*other)@ == self.name()
    }
}

/// A tier equals a text exactly when the text is that tier's own word:
/// `local`, `free` or `paid`. No other text, the empty one included, equals any tier.
pub proof fn lemma_tier_equals_only_its_word(t: Tier, s: &str)
    ensures
        <Tier as PartialEqSpec<&str>>::eq_spec(&t, &s) <==> ((t is Local && s@ == "local"@) || (t is Free && s@ == "free"@) || (
        t is Paid && s@ == "paid"@)),
        s@.len() == 0 ==> !<Tier as PartialEqSpec<&str>>::eq_spec(&t, &s),
        <Tier as PartialEqSpec<&str>>::obeys_eq_spec(),
{
    reveal_strlit("local");
    reveal_strlit("free");
    reveal_strlit("paid");
}

/// A name belongs to one tier only: a tier's name matches no other tier.
pub proof fn lemma_tier_names_distinct(a: Tier, b: Tier)
    ensures
        a.name() == b.name() <==> a == b,
{
    reveal_strlit("local");
    reveal_strlit("free");
    reveal_strlit("paid");
    if a != b {
        assert(a.name().len() != b.name().len() || a.name()[0] != b.name()[0]);
    }
}

// ── Providers ─────────────────────────────────────────────
/// How a provider authenticates upstream.
#[derive(Debug, Clone, PartialEq, Eq)]
pub enum ProviderAuth {
    /// Also read under the tag `apikey`.
    ApiKey { key: String },
    /// No authentication; its tag on the wire is `none`.
    NoAuth,
}

/// One upstream LLM provider.
#[derive(Debug, Clone)]
pub struct Provider {
    pub name: String,
    pub base_url: String,
    /// Written as `type`.
    pub provider_type: String,
    pub auth: ProviderAuth,
    pub tier: Tier,
    pub models: Vec<String>,
    pub proxy: Option<String>,
    /// On when left out.
    pub enabled: bool,
}

// ── Routes ────────────────────────────────────────────────
/// How a route pattern matches an incoming model name.
#[derive(Debug, Clone, Copy, PartialEq, Eq, Structural)]
pub enum RouteMatchType {
    Prefix,
    /// Also read as `Exact`.
    Exact,
}

impl Default for RouteMatchType {
    /// A pattern matches exactly unless it says otherwise.
    fn default() -> (r: Self)
        ensures
            r == RouteMatchType::Exact,
    {
        RouteMatchType::Exact
    }
}

impl RouteMatchType {
    /// The name of the match type on the wire and in text.
    pub open spec fn name(self) -> Seq<char> {
        match self {
            RouteMatchType::Prefix => "prefix"@,
            RouteMatchType::Exact => "exact"@,
        }
    }

    /// The match type as text: `prefix` or `exact`.
    pub fn to_string(&self) -> (s: String)
        ensures
            s@ == self.name(),
            *self is Prefix ==> s@ == "prefix"@,
            *self is Exact ==> s@ == "exact"@,
    {
        match self {
            RouteMatchType::Prefix => "prefix".to_owned(),
            RouteMatchType::Exact => "exact".to_owned(),
        }
    }
}

/// Two different match types never share a name.
pub proof fn lemma_route_match_type_names_distinct(a: RouteMatchType, b: RouteMatchType)
    ensures
        a.name() == b.name() <==> a == b,
{
    reveal_strlit("prefix");
    reveal_strlit("exact");
    if a != b {
        assert(a.name()[0] != b.name()[0]);
    }
}

/// One pattern and its match type, within a route of several rules.
#[derive(Debug, Clone)]
pub struct PatternRule {
    pub pattern: String,
    /// `Exact` when left out.
    pub match_type: RouteMatchType,
}

/// When a route is in force (optional).
#[derive(Debug, Clone)]
pub enum ActiveWindow {
    DateRange { from: String, to: String },
    WeeklyRange { weekdays: Vec<u8>, from: String, to: String },
}

/// The text that an optional rewrite model is written as: the model, or an
/// empty text for none (TOML has no null).
pub open spec fn rewrite_model_text(m: Option<String>) -> Seq<char> {
    match m {
        Some(s) => s@,
        None => Seq::empty(),
    }
}

/// A rewrite model is written as its own text, whatever it is, and none as the empty text.
pub proof fn lemma_rewrite_model_text(m: Option<String>, s: String)
    ensures
        m == Some(s) ==> rewrite_model_text(m) == s@,
        m is None ==> rewrite_model_text(m) == Seq::<char>::empty(),
        rewrite_model_text(Some(s)) == s@,
{
}

/// The fallback rewrite models as they are written out: each one as its
/// text, none as an empty text, in the same order.
pub fn fallback_rewrite_model_names(models: &[Option<String>]) -> (names: Vec<String>)
    ensures
        names@.len() == models@.len(),
        forall|i: int| 0 <= i < models@.len() ==> #[trigger] names@[i]@ == rewrite_model_text(models@[i]),
        forall|i: int|
            0 <= i < models@.len() ==> (models@[i] matches Some(m) ==> #[trigger] names@[i]@ == m@),
        forall|i: int|
            0 <= i < models@.len() ==> (models@[i] is None ==> (#[trigger] names@[i]@).len() == 0),
{
    let mut names: Vec<String> = Vec::new();
    let mut i: usize = 0;
    while i < models.len()
        invariant
            i <= models@.len(),
            names@.len() == i,
            forall|j: int| 0 <= j < i ==> #[trigger] names@[j]@ == rewrite_model_text(models@[j]),
        decreases models@.len() - i,
    {
        let name = match &models[i] {
            Some(s) => s.clone(),
            None => String::new(),
        };
        names.push(name);
        i = i + 1;
    }
    names
}

/// An explicit model → provider route.
#[derive(Debug, Clone)]
pub struct Route {
    pub id: String,
    pub name: String,
    pub note: Option<String>,
    pub rules: Vec<PatternRule>,
    pub users: Vec<String>,
    pub provider: String,
    pub fallback_providers: Vec<String>,
    pub rewrite_model: Option<String>,
    /// Written with none as an empty text, see [`fallback_rewrite_model_names`].
    pub fallback_rewrite_models: Vec<Option<String>>,
    pub supports_thinking: bool,
    /// On when left out.
    pub enabled: bool,
    pub active_window: Option<ActiveWindow>,
}

/// A route as it is read: besides `rules`, it may carry the older single
/// `pattern` with its `match_type`.
#[derive(Debug, Clone)]
pub struct RouteRaw {
    pub id: String,
    pub name: String,
    pub note: Option<String>,
    pub pattern: Option<String>,
    pub match_type: Option<RouteMatchType>,
    pub rules: Vec<PatternRule>,
    pub users: Vec<String>,
    pub provider: String,
    pub fallback_providers: Vec<String>,
    pub rewrite_model: Option<String>,
    pub fallback_rewrite_models: Vec<Option<String>>,
    pub supports_thinking: bool,
    pub enabled: bool,
    pub active_window: Option<ActiveWindow>,
}

/// The single rule that an older route's `pattern` stands for; its match type
/// is `Exact` when none is given.
pub open spec fn legacy_rule(pattern: String, match_type: Option<RouteMatchType>) -> PatternRule {
    PatternRule {
        pattern,
        match_type: match match_type {
            Some(m) => m,
            None => RouteMatchType::Exact,
        },
    }
}

/// The rules of a route that was read: its `rules` when there are any,
/// else the one rule of its older `pattern`, else none.
pub open spec fn normalized_rules(
    rules: Seq<PatternRule>,
    pattern: Option<String>,
    match_type: Option<RouteMatchType>,
) -> Seq<PatternRule> {
    if rules.len() > 0 {
        rules
    } else {
        match pattern {
            Some(p) => seq![legacy_rule(p, match_type)],
            None => Seq::empty(),
        }
    }
}

impl Route {
    /// Builds a route from what was read: the older single-pattern form becomes
    /// one rule, and `rules`, when present, win over it. Every other field is kept.
    pub fn from_raw(raw: RouteRaw) -> (route: Route)
        ensures
            route.rules@ == normalized_rules(raw.rules@, raw.pattern, raw.match_type),
            raw.rules@.len() > 0 ==> route.rules@ == raw.rules@,
            raw.rules@.len() == 0 && raw.pattern is None ==> route.rules@.len() == 0,
            raw.rules@.len() == 0 && raw.pattern is Some ==> {
                &&& route.rules@.len() == 1
                &&& Some(route.rules@[0].pattern) == raw.pattern
                &&& raw.match_type matches Some(m) ==> route.rules@[0].match_type == m
                &&& raw.match_type is None ==> route.rules@[0].match_type == RouteMatchType::Exact
            },
            route.id == raw.id,
            route.name == raw.name,
            route.note == raw.note,
            route.users == raw.users,
            route.provider == raw.provider,
            route.fallback_providers == raw.fallback_providers,
            route.rewrite_model == raw.rewrite_model,
            route.fallback_rewrite_models == raw.fallback_rewrite_models,
            route.supports_thinking == raw.supports_thinking,
            route.enabled == raw.enabled,
            route.active_window == raw.active_window,
    {
        let rules = if raw.rules.len() > 0 {
            raw.rules
        } else {
            match raw.pattern {
                Some(p) => {
                    let mt = match raw.match_type {
                        Some(m) => m,
                        None => RouteMatchType::Exact,
                    };
                    vec![PatternRule { pattern: p, match_type: mt }]
                },
                None => Vec::new(),
            }
        };
        Route {
            id: raw.id,
            name: raw.name,
            note: raw.note,
            rules,
            users: raw.users,
            provider: raw.provider,
            fallback_providers: raw.fallback_providers,
            rewrite_model: raw.rewrite_model,
            fallback_rewrite_models: raw.fallback_rewrite_models,
            supports_thinking: raw.supports_thinking,
            enabled: raw.enabled,
            active_window: raw.active_window,
        }
    }
}

/// A route read back from what was written keeps its rules: a route is
/// written with its `rules` and no `pattern`, and reading that gives the same
/// rules again.
pub proof fn lemma_normalized_rules_stable(
    rules: Seq<PatternRule>,
    pattern: Option<String>,
    match_type: Option<RouteMatchType>,
)
    ensures
        normalized_rules(normalized_rules(rules, pattern, match_type), None, None)
            == normalized_rules(rules, pattern, match_type),
{
}

/// When a route carries rules, they are its rules, whatever older pattern it also carries.
pub proof fn lemma_rules_win_over_pattern(
    rules: Seq<PatternRule>,
    pattern: Option<String>,
    match_type: Option<RouteMatchType>,
)
    requires
        rules.len() > 0,
    ensures
        normalized_rules(rules, pattern, match_type) == rules,
{
}

/// A route in the older single-pattern form reads the same as one written
/// with that single rule; the match type defaults to `Exact`.
pub proof fn lemma_legacy_pattern_is_one_rule(
    pattern: String,
    match_type: Option<RouteMatchType>,
)
    ensures
        normalized_rules(Seq::empty(), Some(pattern), match_type)
            == normalized_rules(seq![legacy_rule(pattern, match_type)], None, None),
        normalized_rules(Seq::empty(), Some(pattern), None)
            == seq![PatternRule { pattern, match_type: RouteMatchType::Exact }],
{
}

/// An older route's pattern keeps the match type it was given, and is `Exact`
/// only when it was given none.
pub proof fn lemma_legacy_rule_keeps_given_match_type(
    pattern: String,
    m: RouteMatchType,
)
    ensures
        normalized_rules(Seq::empty(), Some(pattern), Some(m)) == seq![
            PatternRule { pattern, match_type: m },
        ],
        normalized_rules(Seq::empty(), Some(pattern), None) == seq![
            PatternRule { pattern, match_type: RouteMatchType::Exact },
        ],
        legacy_rule(pattern, Some(m)) == (PatternRule { pattern, match_type: m }),
{
}

/// A route ends up with no rule exactly when it was read with neither rules nor a pattern.
pub proof fn lemma_normalized_rules_empty(
    rules: Seq<PatternRule>,
    pattern: Option<String>,
    match_type: Option<RouteMatchType>,
)
    ensures
        normalized_rules(rules, pattern, match_type).len() == 0 <==> (rules.len() == 0
            && pattern is None),
{
}

// ── Groups ────────────────────────────────────────────────
/// How a [`ProviderGroup`] picks a member for each call.
#[derive(Debug, Clone, Copy, PartialEq, Eq, Structural)]
pub enum GroupStrategy {
    RoundRobin,
    Sequential,
    Random,
    LoadBalance,
    LeastLatency,
}

impl Default for GroupStrategy {
    /// Groups go round robin unless they say otherwise.
    fn default() -> (r: Self)
        ensures
            r == GroupStrategy::RoundRobin,
    {
        GroupStrategy::RoundRobin
    }
}

impl GroupStrategy {
    /// The name of the strategy on the wire and in text.
    pub open spec fn name(self) -> Seq<char> {
        match self {
            GroupStrategy::RoundRobin => "round_robin"@,
            GroupStrategy::Sequential => "sequential"@,
            GroupStrategy::Random => "random"@,
            GroupStrategy::LoadBalance => "load_balance"@,
            GroupStrategy::LeastLatency => "least_latency"@,
        }
    }

    /// The strategy as text, in snake case.
    pub fn to_string(&self) -> (s: String)
        ensures
            s@ == self.name(),
            *self is RoundRobin ==> s@ == "round_robin"@,
            *self is Sequential ==> s@ == "sequential"@,
            *self is Random ==> s@ == "random"@,
            *self is LoadBalance ==> s@ == "load_balance"@,
            *self is LeastLatency ==> s@ == "least_latency"@,
    {
        match self {
            GroupStrategy::RoundRobin => "round_robin".to_owned(),
            GroupStrategy::Sequential => "sequential".to_owned(),
            GroupStrategy::Random => "random".to_owned(),
            GroupStrategy::LoadBalance => "load_balance".to_owned(),
            GroupStrategy::LeastLatency => "least_latency".to_owned(),
        }
    }
}

/// Two different strategies never share a name.
pub proof fn lemma_group_strategy_names_distinct(a: GroupStrategy, b: GroupStrategy)
    ensures
        a.name() == b.name() <==> a == b,
{
    reveal_strlit("round_robin");
    reveal_strlit("sequential");
    reveal_strlit("random");
    reveal_strlit("load_balance");
    reveal_strlit("least_latency");
    if a != b {
        assert(a.name().len() != b.name().len() || a.name()[0] != b.name()[0]
            || a.name()[1] != b.name()[1]);
    }
}

/// A virtual provider that gathers one or more real providers.
#[derive(Debug, Clone)]
pub struct ProviderGroup {
    pub name: String,
    pub providers: Vec<String>,
    /// Round robin when left out.
    pub strategy: GroupStrategy,
    /// On when left out.
    pub enabled: bool,
}

// ── Auth ──────────────────────────────────────────────────
/// A synced authentication key.
#[derive(Debug, Clone)]
pub struct AuthKeyRow {
    pub id: String,
    pub key_hash: String,
    pub user_id: String,
}

impl Default for AuthKeyRow {
    /// All three texts empty.
    fn default() -> (r: Self)
        ensures
            r.id@ == Seq::<char>::empty(),
            r.key_hash@ == Seq::<char>::empty(),
            r.user_id@ == Seq::<char>::empty(),
    {
        AuthKeyRow { id: String::new(), key_hash: String::new(), user_id: String::new() }
    }
}

/// A synced authenticated user.
#[derive(Debug, Clone)]
pub struct AuthUserRow {
    pub id: String,
    pub name: String,
    pub quota_limit: i64,
    pub window_seconds: i64,
}

impl Default for AuthUserRow {
    /// Empty id and name, no quota and no window.
    fn default() -> (r: Self)
        ensures
            r.id@ == Seq::<char>::empty(),
            r.name@ == Seq::<char>::empty(),
            r.quota_limit == 0,
            r.window_seconds == 0,
    {
        AuthUserRow { id: String::new(), name: String::new(), quota_limit: 0, window_seconds: 0 }
    }
}

/// Sync response (cloud-manager `GET /api/tg/sync` → tokengateway).
#[derive(Debug, Clone)]
pub struct TgSyncManifest {
    pub updated_at: i64,
    pub providers: Vec<Provider>,
    pub routes: Vec<Route>,
    pub groups: Vec<ProviderGroup>,
    pub auth_keys: Vec<AuthKeyRow>,
    pub auth_users: Vec<AuthUserRow>,
}

// ── Call records ──────────────────────────────────────────
/// The role of an attempt that a call record leaves out: the primary one.
pub fn default_attempt_role() -> (role: String)
    ensures
        role@ == "primary"@,
{
    "primary".to_owned()
}

} // verus!
