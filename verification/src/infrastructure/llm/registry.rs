//! Registry of language models.
//!
//! [`ProviderRegistry`] resolves a model alias to the adapter that the node's
//! configuration chose for it, and decides how a call is repeated when it
//! fails: an attempt, a pause that doubles each time, and in the end the
//! fallback provider.

use vstd::prelude::*;
use crate::domain::llm::{GenerationOptions, LLMError, Temperature};
use crate::domain::node_config::{
    LLMProviderConfig, LLMSelectionStrategy, ModelConfig, NodeConfigManifest, TokenCost,
};
use crate::support::failure::Failure;
use crate::support::text;
use crate::support::text::{decimal, same_text, starts_with};
use crate::support::text_map::TextMap;

verus! {

/// Whether a key is the platform's or the user's own.
#[derive(Clone, Copy, Debug, PartialEq, Eq, Structural)]
pub enum ApiKeySource {
    /// Resolved from an environment variable, or none at all.
    Platform,
    /// Given literally by the user.
    User,
}

/// The largest power of two by which a pause grows.
pub const MAX_BACKOFF_EXPONENT: u32 = 16;

/// The longest pause, in milliseconds.
pub const MAX_BACKOFF_MS: u64 = 65_536_000;

/// The protocol that an adapter speaks.
#[derive(Clone, Copy, Debug, PartialEq, Eq, Hash, Structural)]
pub enum AdapterKind {
    OpenAI,
    Ollama,
    Anthropic,
    Gemini,
}

/// What an adapter is made with.
#[derive(Debug)]
pub struct Adapter {
    pub kind: AdapterKind,
    pub endpoint: String,
    pub api_key: String,
    pub model: String,
}

/// The contents of an [`Adapter`].
pub ghost struct AdapterView {
    pub kind: AdapterKind,
    pub endpoint: Seq<char>,
    pub api_key: Seq<char>,
    pub model: Seq<char>,
}

impl View for Adapter {
    type V = AdapterView;

    open spec fn view(&self) -> AdapterView {
        AdapterView {
            kind: self.kind,
            endpoint: self.endpoint@,
            api_key: self.api_key@,
            model: self.model@,
        }
    }
}

impl Adapter {
    /// A copy of the description.
    pub fn copy(&self) -> (r: Adapter)
        ensures
            r == *self,
    {
        Adapter {
            kind: self.kind,
            endpoint: self.endpoint.clone(),
            api_key: self.api_key.clone(),
            model: self.model.clone(),
        }
    }
}

/// The protocol of a provider type, where it is a known one.
pub open spec fn kind_of_type(provider_type: Seq<char>) -> Option<AdapterKind> {
    if provider_type == "openai"@ {
        Some(AdapterKind::OpenAI)
    } else if provider_type == "ollama"@ {
        Some(AdapterKind::Ollama)
    } else if provider_type == "anthropic"@ {
        Some(AdapterKind::Anthropic)
    } else if provider_type == "gemini"@ {
        Some(AdapterKind::Gemini)
    } else if provider_type == "openai-compatible"@ {
        Some(AdapterKind::OpenAI)
    } else {
        None
    }
}

fn find_kind(provider_type: &str) -> (r: Option<AdapterKind>)
    ensures
        r == kind_of_type(provider_type@),
{
    if same_text(provider_type, "openai") {
        Some(AdapterKind::OpenAI)
    } else if same_text(provider_type, "ollama") {
        Some(AdapterKind::Ollama)
    } else if same_text(provider_type, "anthropic") {
        Some(AdapterKind::Anthropic)
    } else if same_text(provider_type, "gemini") {
        Some(AdapterKind::Gemini)
    } else if same_text(provider_type, "openai-compatible") {
        Some(AdapterKind::OpenAI)
    } else {
        None
    }
}

/// Where a protocol is served unless the configuration says otherwise.
pub open spec fn default_endpoint(kind: AdapterKind) -> Seq<char> {
    match kind {
        AdapterKind::OpenAI => "https://api.openai.com/v1"@,
        AdapterKind::Anthropic => "https://api.anthropic.com/v1"@,
        AdapterKind::Gemini => "https://generativelanguage.googleapis.com/v1beta"@,
        AdapterKind::Ollama => "http://localhost:11434"@,
    }
}

/// The key that an adapter gets: none where none is configured, else what the
/// configured one was resolved to.
pub open spec fn key_of(config: LLMProviderConfig, resolved: Result<String, Failure>) -> Option<
    Seq<char>,
> {
    if config.api_key is None {
        Some(Seq::empty())
    } else {
        match resolved {
            Ok(key) => Some(key@),
            Err(_) => None,
        }
    }
}

/// The adapter of a provider for one of its models, if it can be made.
pub open spec fn adapter_of(
    config: LLMProviderConfig,
    resolved: Result<String, Failure>,
    model: Seq<char>,
) -> Option<AdapterView> {
    match (key_of(config, resolved), kind_of_type(config.provider_type@)) {
        (Some(api_key), Some(kind)) => Some(
            AdapterView {
                kind,
                endpoint: if config.endpoint@.len() == 0 {
                    default_endpoint(kind)
                } else {
                    config.endpoint@
                },
                // Ollama needs no key, so its adapter takes none.
                api_key: if kind == AdapterKind::Ollama {
                    Seq::empty()
                } else {
                    api_key
                },
                model,
            },
        ),
        _ => None,
    }
}

/// A model that is ahead under some alias.
pub ghost struct CandidateView {
    pub provider: Seq<char>,
    pub model: Seq<char>,
    pub local: bool,
    pub cost: TokenCost,
}

struct Candidate {
    provider: String,
    model: String,
    local: bool,
    cost: TokenCost,
}

impl View for Candidate {
    type V = CandidateView;

    closed spec fn view(&self) -> CandidateView {
        CandidateView {
            provider: self.provider@,
            model: self.model@,
            local: self.local,
            cost: self.cost,
        }
    }
}

/// Whether a strategy puts a new model in the place of the one that is ahead.
pub open spec fn displaces(
    strategy: LLMSelectionStrategy,
    local: bool,
    cost: TokenCost,
    ahead: CandidateView,
) -> bool {
    match strategy {
        LLMSelectionStrategy::PreferLocal => local && !ahead.local,
        LLMSelectionStrategy::LatencyOptimized => local && !ahead.local,
        LLMSelectionStrategy::PreferCloud => !local && ahead.local,
        LLMSelectionStrategy::CostOptimized => cost.lower(ahead.cost),
    }
}

/// What one model of a provider is as a candidate.
pub open spec fn candidate_of(provider: LLMProviderConfig, model: ModelConfig) -> CandidateView {
    CandidateView {
        provider: provider.name@,
        model: model.model@,
        local: provider.local,
        cost: model.cost_per_1k_tokens,
    }
}

/// The models that are ahead, after one more was considered.
pub open spec fn after_model(
    strategy: LLMSelectionStrategy,
    ahead: Map<Seq<char>, CandidateView>,
    provider: LLMProviderConfig,
    model: ModelConfig,
) -> Map<Seq<char>, CandidateView> {
    if !ahead.contains_key(model.alias@) || displaces(
        strategy,
        provider.local,
        model.cost_per_1k_tokens,
        ahead[model.alias@],
    ) {
        ahead.insert(model.alias@, candidate_of(provider, model))
    } else {
        ahead
    }
}

/// The models that are ahead, after the first `n` of a provider were
/// considered.
pub open spec fn after_models(
    strategy: LLMSelectionStrategy,
    ahead: Map<Seq<char>, CandidateView>,
    provider: LLMProviderConfig,
    n: nat,
) -> Map<Seq<char>, CandidateView>
    decreases n,
{
    if n == 0 {
        ahead
    } else {
        after_model(
            strategy,
            after_models(strategy, ahead, provider, (n - 1) as nat),
            provider,
            provider.models@[n - 1],
        )
    }
}

/// Whether the models of a provider are considered at all: it is enabled, and
/// the adapter for its first model, if it has one, can be made.
pub open spec fn considered(provider: LLMProviderConfig, resolved: Result<String, Failure>) -> bool {
    provider.enabled && (provider.models@.len() > 0 ==> adapter_of(
        provider,
        resolved,
        provider.models@[0].model@,
    ) is Some)
}

/// The models that are ahead, after the first `n` providers.
pub open spec fn after_providers(
    strategy: LLMSelectionStrategy,
    providers: Seq<LLMProviderConfig>,
    resolved: Seq<Result<String, Failure>>,
    n: nat,
) -> Map<Seq<char>, CandidateView>
    decreases n,
{
    if n == 0 {
        Map::empty()
    } else {
        let before = after_providers(strategy, providers, resolved, (n - 1) as nat);
        if considered(providers[n - 1], resolved[n - 1]) {
            after_models(strategy, before, providers[n - 1], providers[n - 1].models@.len())
        } else {
            before
        }
    }
}

/// The adapters for health checks, by provider name, after the first `n`
/// providers.
pub open spec fn health_adapters(
    providers: Seq<LLMProviderConfig>,
    resolved: Seq<Result<String, Failure>>,
    n: nat,
) -> Map<Seq<char>, AdapterView>
    decreases n,
{
    if n == 0 {
        Map::empty()
    } else {
        let before = health_adapters(providers, resolved, (n - 1) as nat);
        let p = providers[n - 1];
        if considered(p, resolved[n - 1]) && p.models@.len() > 0 {
            before.insert(p.name@, adapter_of(p, resolved[n - 1], p.models@[0].model@)->0)
        } else {
            before
        }
    }
}

/// What the registry knows of the aliases.
pub ghost struct AliasTables {
    pub adapters: Map<Seq<char>, AdapterView>,
    pub raw_api_keys: Map<Seq<char>, Option<String>>,
    pub max_output_tokens: Map<Seq<char>, u32>,
    pub temperatures: Map<Seq<char>, u32>,
}

/// The tables after one more model: where it is the one that won its alias and
/// its adapter can be made, the alias is mapped to it.
pub open spec fn with_model(
    tables: AliasTables,
    winners: Map<Seq<char>, CandidateView>,
    provider: LLMProviderConfig,
    resolved: Result<String, Failure>,
    model: ModelConfig,
) -> AliasTables {
    let alias = model.alias@;
    if winners.contains_key(alias) && winners[alias].provider == provider.name@
        && winners[alias].model == model.model@ && adapter_of(
        provider,
        resolved,
        model.model@,
    ) is Some {
        AliasTables {
            adapters: tables.adapters.insert(
                alias,
                adapter_of(provider, resolved, model.model@)->0,
            ),
            raw_api_keys: tables.raw_api_keys.insert(alias, provider.api_key),
            max_output_tokens: match model.max_output_tokens {
                Some(n) => tables.max_output_tokens.insert(alias, n),
                None => tables.max_output_tokens,
            },
            temperatures: match model.temperature {
                Some(t) => tables.temperatures.insert(alias, t@),
                None => tables.temperatures,
            },
        }
    } else {
        tables
    }
}

/// The tables after the first `n` models of a provider.
pub open spec fn with_models(
    tables: AliasTables,
    winners: Map<Seq<char>, CandidateView>,
    provider: LLMProviderConfig,
    resolved: Result<String, Failure>,
    n: nat,
) -> AliasTables
    decreases n,
{
    if n == 0 {
        tables
    } else {
        with_model(
            with_models(tables, winners, provider, resolved, (n - 1) as nat),
            winners,
            provider,
            resolved,
            provider.models@[n - 1],
        )
    }
}

/// The tables of no alias.
pub open spec fn empty_tables() -> AliasTables {
    AliasTables {
        adapters: Map::empty(),
        raw_api_keys: Map::empty(),
        max_output_tokens: Map::empty(),
        temperatures: Map::empty(),
    }
}

/// The tables after the first `n` providers.
pub open spec fn with_providers(
    winners: Map<Seq<char>, CandidateView>,
    providers: Seq<LLMProviderConfig>,
    resolved: Seq<Result<String, Failure>>,
    n: nat,
) -> AliasTables
    decreases n,
{
    if n == 0 {
        empty_tables()
    } else {
        let before = with_providers(winners, providers, resolved, (n - 1) as nat);
        if providers[n - 1].enabled {
            with_models(
                before,
                winners,
                providers[n - 1],
                resolved[n - 1],
                providers[n - 1].models@.len(),
            )
        } else {
            before
        }
    }
}

/// The first provider of the given name.
pub open spec fn first_named(providers: Seq<LLMProviderConfig>, name: Seq<char>) -> Option<int>
    decreases providers.len(),
{
    if providers.len() == 0 {
        None
    } else if providers[0].name@ == name {
        Some(0)
    } else {
        match first_named(providers.drop_first(), name) {
            Some(i) => Some(i + 1),
            None => None,
        }
    }
}

/// The fallback: the health-check adapter of the named provider, with the name
/// of the first model of the first provider so named.
pub open spec fn fallback_of(config: NodeConfigManifest, adapters: Map<Seq<char>, AdapterView>) -> Option<
    (Seq<char>, AdapterView),
> {
    match config.spec.llm_selection.fallback_provider {
        None => None,
        Some(name) => {
            let providers = config.spec.llm_providers@;
            if adapters.contains_key(name@) && first_named(providers, name@) is Some
                && providers[first_named(providers, name@)->0].models@.len() > 0 {
                Some(
                    (
                        providers[first_named(providers, name@)->0].models@[0].model@,
                        adapters[name@],
                    ),
                )
            } else {
                None
            }
        },
    }
}

/// Adapters by alias, and how calls are repeated.
pub struct ProviderRegistry {
    pub alias_map: TextMap<Adapter>,
    pub providers: TextMap<Adapter>,
    pub fallback_provider: Option<(String, Adapter)>,
    pub raw_api_keys: TextMap<Option<String>>,
    pub alias_max_output_tokens: TextMap<u32>,
    pub alias_temperatures: TextMap<Temperature>,
    pub max_retries: u32,
    pub retry_delay_ms: u64,
    pub llm_overall_timeout_secs: u64,
}

impl ProviderRegistry {
    /// The registry's alias tables.
    pub open spec fn tables(self) -> AliasTables {
        AliasTables {
            adapters: self.alias_map@,
            raw_api_keys: self.raw_api_keys@,
            max_output_tokens: self.alias_max_output_tokens@,
            temperatures: self.alias_temperatures@,
        }
    }

    /// Whether the registry is the one that `config` asks for, its API keys
    /// resolved to `resolved`.
    pub open spec fn follows(
        self,
        config: NodeConfigManifest,
        resolved: Seq<Result<String, Failure>>,
    ) -> bool {
        let providers = config.spec.llm_providers@;
        let selection = config.spec.llm_selection;
        &&& self.providers@ == health_adapters(providers, resolved, providers.len())
        &&& self.tables() == with_providers(
            after_providers(selection.strategy, providers, resolved, providers.len()),
            providers,
            resolved,
            providers.len(),
        )
        &&& match (self.fallback_provider, fallback_of(config, self.providers@)) {
            (Some(f), Some(g)) => f.0@ == g.0 && f.1@ == g.1,
            (None, None) => true,
            _ => false,
        }
        &&& self.max_retries == selection.max_retries
        &&& self.retry_delay_ms == selection.retry_delay_ms
        &&& self.llm_overall_timeout_secs == selection.llm_overall_timeout_secs
    }

    /// The registry that a node's configuration asks for. `resolved` holds, for
    /// each provider, what its API key was resolved to.
    ///
    /// Each alias is mapped to the model that wins it under the configured
    /// strategy; disabled providers, and those whose first adapter cannot be
    /// made, offer none.
    pub fn from_config(
        config: &NodeConfigManifest,
        resolved: &Vec<Result<String, Failure>>,
    ) -> (r: Result<Self, Failure>)
        requires
            resolved@.len() == config.spec.llm_providers@.len(),
        ensures
            r is Ok,
            r->Ok_0.follows(*config, resolved@),
    {
        let strategy = config.spec.llm_selection.strategy;
        let list = &config.spec.llm_providers;
        let mut providers: TextMap<Adapter> = TextMap::new();
        let mut candidates: TextMap<Candidate> = TextMap::new();
        let mut i: usize = 0;
        while i < list.len()
            invariant
                i <= list@.len(),
                resolved@.len() == list@.len(),
                candidates@ == after_providers(strategy, list@, resolved@, i as nat),
                providers@ == health_adapters(list@, resolved@, i as nat),
            decreases list.len() - i,
        {
            let provider = &list[i];
            let mut usable = provider.enabled;
            if usable && provider.models.len() > 0 {
                match Self::create_adapter(
                    provider,
                    &resolved[i],
                    provider.models[0].model.as_str(),
                ) {
                    Ok(adapter) => {
                        providers.insert(provider.name.clone(), adapter);
                    },
                    Err(_) => {
                        usable = false;
                    },
                }
            }
            assert(usable == considered(*provider, resolved@[i as int]));
            if usable {
                Self::consider_models(strategy, provider, &mut candidates);
            }
            i = i + 1;
        }
        let mut registry = ProviderRegistry {
            alias_map: TextMap::new(),
            providers,
            fallback_provider: None,
            raw_api_keys: TextMap::new(),
            alias_max_output_tokens: TextMap::new(),
            alias_temperatures: TextMap::new(),
            max_retries: config.spec.llm_selection.max_retries,
            retry_delay_ms: config.spec.llm_selection.retry_delay_ms,
            llm_overall_timeout_secs: config.spec.llm_selection.llm_overall_timeout_secs,
        };
        let ghost health = registry.providers@;
        let mut i: usize = 0;
        while i < list.len()
            invariant
                i <= list@.len(),
                resolved@.len() == list@.len(),
                registry.tables() == with_providers(candidates@, list@, resolved@, i as nat),
                registry.providers@ == health,
                registry.fallback_provider is None,
                registry.max_retries == config.spec.llm_selection.max_retries,
                registry.retry_delay_ms == config.spec.llm_selection.retry_delay_ms,
                registry.llm_overall_timeout_secs
                    == config.spec.llm_selection.llm_overall_timeout_secs,
            decreases list.len() - i,
        {
            let provider = &list[i];
            if provider.enabled {
                registry.map_models(provider, &resolved[i], &candidates);
            }
            i = i + 1;
        }
        registry.fallback_provider = registry.find_fallback(config);
        Ok(registry)
    }

    /// Considers every model of a provider for its alias.
    fn consider_models(
        strategy: LLMSelectionStrategy,
        provider: &LLMProviderConfig,
        candidates: &mut TextMap<Candidate>,
    )
        ensures
            final(candidates)@ == after_models(
                strategy,
                old(candidates)@,
                *provider,
                provider.models@.len(),
            ),
    {
        let ghost before = candidates@;
        let mut k: usize = 0;
        while k < provider.models.len()
            invariant
                k <= provider.models@.len(),
                candidates@ == after_models(strategy, before, *provider, k as nat),
            decreases provider.models.len() - k,
        {
            let model = &provider.models[k];
            let better = match candidates.get(model.alias.as_str()) {
                None => true,
                Some(ahead) => match strategy {
                    LLMSelectionStrategy::PreferLocal => provider.local && !ahead.local,
                    LLMSelectionStrategy::LatencyOptimized => provider.local && !ahead.local,
                    LLMSelectionStrategy::PreferCloud => !provider.local && ahead.local,
                    LLMSelectionStrategy::CostOptimized => model.cost_per_1k_tokens.is_lower(
                        &ahead.cost,
                    ),
                },
            };
            if better {
                candidates.insert(
                    model.alias.clone(),
                    Candidate {
                        provider: provider.name.clone(),
                        model: model.model.clone(),
                        local: provider.local,
                        cost: model.cost_per_1k_tokens,
                    },
                );
            }
            k = k + 1;
        }
    }

    /// Maps the aliases that models of this provider won.
    fn map_models(
        &mut self,
        provider: &LLMProviderConfig,
        resolved: &Result<String, Failure>,
        winners: &TextMap<Candidate>,
    )
        ensures
            final(self).tables() == with_models(
                old(self).tables(),
                winners@,
                *provider,
                *resolved,
                provider.models@.len(),
            ),
            final(self).providers == old(self).providers,
            final(self).fallback_provider == old(self).fallback_provider,
            final(self).max_retries == old(self).max_retries,
            final(self).retry_delay_ms == old(self).retry_delay_ms,
            final(self).llm_overall_timeout_secs == old(self).llm_overall_timeout_secs,
    {
        let ghost start = *self;
        let mut k: usize = 0;
        while k < provider.models.len()
            invariant
                k <= provider.models@.len(),
                self.tables() == with_models(
                    start.tables(),
                    winners@,
                    *provider,
                    *resolved,
                    k as nat,
                ),
                self.providers == start.providers,
                self.fallback_provider == start.fallback_provider,
                self.max_retries == start.max_retries,
                self.retry_delay_ms == start.retry_delay_ms,
                self.llm_overall_timeout_secs == start.llm_overall_timeout_secs,
            decreases provider.models.len() - k,
        {
            let model = &provider.models[k];
            let ghost tables = self.tables();
            let won = match winners.get(model.alias.as_str()) {
                Some(winner) => same_text(winner.provider.as_str(), provider.name.as_str())
                    && same_text(winner.model.as_str(), model.model.as_str()),
                None => false,
            };
            if won {
                match Self::create_adapter(provider, resolved, model.model.as_str()) {
                    Ok(adapter) => {
                        self.alias_map.insert(model.alias.clone(), adapter);
                        self.raw_api_keys.insert(model.alias.clone(), provider.api_key.clone());
                        if let Some(n) = model.max_output_tokens {
                            self.alias_max_output_tokens.insert(model.alias.clone(), n);
                        }
                        if let Some(t) = model.temperature {
                            self.alias_temperatures.insert(model.alias.clone(), t);
                        }
                    },
                    Err(_) => {},
                }
            }
            assert(self.tables() == with_model(tables, winners@, *provider, *resolved, *model));
            k = k + 1;
        }
    }

    fn find_fallback(&self, config: &NodeConfigManifest) -> (r: Option<(String, Adapter)>)
        ensures
            match (r, fallback_of(*config, self.providers@)) {
                (Some(f), Some(g)) => f.0@ == g.0 && f.1@ == g.1,
                (None, None) => true,
                _ => false,
            },
    {
        let name = match &config.spec.llm_selection.fallback_provider {
            Some(name) => name,
            None => return None,
        };
        let adapter = match self.providers.get(name.as_str()) {
            Some(adapter) => adapter,
            None => return None,
        };
        match Self::find_named(&config.spec.llm_providers, name.as_str()) {
            Some(i) => {
                let provider = &config.spec.llm_providers[i];
                if provider.models.len() > 0 {
                    Some((provider.models[0].model.clone(), adapter.copy()))
                } else {
                    None
                }
            },
            None => None,
        }
    }

    fn find_named(providers: &Vec<LLMProviderConfig>, name: &str) -> (r: Option<usize>)
        ensures
            match r {
                Some(i) => i < providers@.len() && first_named(providers@, name@) == Some(i as int),
                None => first_named(providers@, name@) is None,
            },
    {
        let mut i: usize = 0;
        assert(providers@.skip(0) =~= providers@);
        while i < providers.len()
            invariant
                i <= providers@.len(),
                match first_named(providers@.skip(i as int), name@) {
                    Some(j) => first_named(providers@, name@) == Some(i + j),
                    None => first_named(providers@, name@) is None,
                },
            decreases providers.len() - i,
        {
            let ghost rest = providers@.skip(i as int);
            assert(rest[0] == providers@[i as int]);
            if same_text(providers[i].name.as_str(), name) {
                return Some(i);
            }
            assert(rest.drop_first() =~= providers@.skip(i as int + 1));
            i = i + 1;
        }
        None
    }

    /// The adapter of a provider for one of its models. `resolved` is what the
    /// provider's API key was resolved to.
    pub fn create_adapter(
        config: &LLMProviderConfig,
        resolved: &Result<String, Failure>,
        model: &str,
    ) -> (r: Result<Adapter, Failure>)
        ensures
            match r {
                Ok(adapter) => adapter_of(*config, *resolved, model@) == Some(adapter@),
                Err(failure) => {
                    &&& adapter_of(*config, *resolved, model@) is None
                    &&& key_of(*config, *resolved) is None ==> failure@ == resolved->Err_0@
                    &&& key_of(*config, *resolved) is Some ==> failure@
                        == seq!["Unsupported provider type: "@ + config.provider_type@]
                },
            },
    {
        let api_key = match Self::resolve_api_key(&config.api_key, resolved) {
            Ok(key) => key,
            Err(failure) => return Err(failure),
        };
        let kind = match find_kind(config.provider_type.as_str()) {
            Some(kind) => kind,
            None => {
                return Err(
                    Failure::new(
                        "Unsupported provider type: ".to_owned().concat(
                            config.provider_type.as_str(),
                        ),
                    ),
                );
            },
        };
        let endpoint = if config.endpoint.as_str().is_empty() {
            match kind {
                AdapterKind::OpenAI => "https://api.openai.com/v1".to_owned(),
                AdapterKind::Anthropic => "https://api.anthropic.com/v1".to_owned(),
                AdapterKind::Gemini => {
                    "https://generativelanguage.googleapis.com/v1beta".to_owned()
                },
                AdapterKind::Ollama => "http://localhost:11434".to_owned(),
            }
        } else {
            config.endpoint.clone()
        };
        let api_key = match kind {
            AdapterKind::Ollama => String::new(),
            _ => api_key,
        };
        Ok(Adapter { kind, endpoint, api_key, model: model.to_owned() })
    }

    /// The key for an adapter: none where none is configured, else the resolved
    /// one.
    fn resolve_api_key(key: &Option<String>, resolved: &Result<String, Failure>) -> (r: Result<
        String,
        Failure,
    >)
        ensures
            match r {
                Ok(k) => if key is None {
                    k@ == Seq::<char>::empty()
                } else {
                    *resolved == Ok::<String, Failure>(k)
                },
                Err(failure) => key is Some && *resolved is Err && failure@ == resolved->Err_0@,
            },
    {
        match key {
            None => Ok(String::new()),
            Some(_) => match resolved {
                Ok(k) => Ok(k.clone()),
                Err(failure) => Err(failure.copy()),
            },
        }
    }
}

/// The first `k` models of a provider, those under `alias` alone.
pub open spec fn offers_of(provider: LLMProviderConfig, alias: Seq<char>, k: nat) -> Seq<
    CandidateView,
>
    decreases k,
{
    if k == 0 {
        Seq::empty()
    } else {
        let before = offers_of(provider, alias, (k - 1) as nat);
        if provider.models@[k - 1].alias@ == alias {
            before.push(candidate_of(provider, provider.models@[k - 1]))
        } else {
            before
        }
    }
}

/// What the first `n` providers offer under `alias`, in order. Providers that
/// are not considered offer nothing.
pub open spec fn offers(
    providers: Seq<LLMProviderConfig>,
    resolved: Seq<Result<String, Failure>>,
    alias: Seq<char>,
    n: nat,
) -> Seq<CandidateView>
    decreases n,
{
    if n == 0 {
        Seq::empty()
    } else {
        let before = offers(providers, resolved, alias, (n - 1) as nat);
        if considered(providers[n - 1], resolved[n - 1]) {
            before + offers_of(providers[n - 1], alias, providers[n - 1].models@.len())
        } else {
            before
        }
    }
}

/// The offer that is ahead in the end, when they come one after the other.
pub open spec fn pick(strategy: LLMSelectionStrategy, offered: Seq<CandidateView>) -> Option<
    CandidateView,
>
    decreases offered.len(),
{
    if offered.len() == 0 {
        None
    } else {
        let last = offered.last();
        match pick(strategy, offered.drop_last()) {
            None => Some(last),
            Some(ahead) => if displaces(strategy, last.local, last.cost, ahead) {
                Some(last)
            } else {
                Some(ahead)
            },
        }
    }
}

/// Whether `ahead` holds, under `alias`, what `picked` says.
spec fn agrees(
    ahead: Map<Seq<char>, CandidateView>,
    alias: Seq<char>,
    picked: Option<CandidateView>,
) -> bool {
    match picked {
        None => !ahead.contains_key(alias),
        Some(c) => ahead.contains_key(alias) && ahead[alias] == c,
    }
}

proof fn lemma_models_pick(
    strategy: LLMSelectionStrategy,
    ahead: Map<Seq<char>, CandidateView>,
    provider: LLMProviderConfig,
    alias: Seq<char>,
    earlier: Seq<CandidateView>,
    k: nat,
)
    requires
        agrees(ahead, alias, pick(strategy, earlier)),
    ensures
        agrees(
            after_models(strategy, ahead, provider, k),
            alias,
            pick(strategy, earlier + offers_of(provider, alias, k)),
        ),
    decreases k,
{
    if k == 0 {
        assert(earlier + offers_of(provider, alias, 0) =~= earlier);
    } else {
        lemma_models_pick(strategy, ahead, provider, alias, earlier, (k - 1) as nat);
        let m = provider.models@[k - 1];
        let before = earlier + offers_of(provider, alias, (k - 1) as nat);
        if m.alias@ == alias {
            let now = earlier + offers_of(provider, alias, k);
            assert(now =~= before.push(candidate_of(provider, m)));
            assert(now.drop_last() =~= before);
        }
    }
}

/// The model that an alias is given to is the pick among what is offered under
/// it; an alias that nothing is offered under is given to none.
pub proof fn winner_is_pick(
    strategy: LLMSelectionStrategy,
    providers: Seq<LLMProviderConfig>,
    resolved: Seq<Result<String, Failure>>,
    alias: Seq<char>,
    n: nat,
)
    ensures
        match pick(strategy, offers(providers, resolved, alias, n)) {
            None => !after_providers(strategy, providers, resolved, n).contains_key(alias),
            Some(c) => {
                &&& after_providers(strategy, providers, resolved, n).contains_key(alias)
                &&& after_providers(strategy, providers, resolved, n)[alias] == c
            },
        },
    decreases n,
{
    if n > 0 {
        winner_is_pick(strategy, providers, resolved, alias, (n - 1) as nat);
        if considered(providers[n - 1], resolved[n - 1]) {
            lemma_models_pick(
                strategy,
                after_providers(strategy, providers, resolved, (n - 1) as nat),
                providers[n - 1],
                alias,
                offers(providers, resolved, alias, (n - 1) as nat),
                providers[n - 1].models@.len(),
            );
        }
    }
}

/// Preferring local models, or low latency, picks the first local offer, and
/// the first offer where none is local.
pub proof fn prefer_local_picks_first_local(
    strategy: LLMSelectionStrategy,
    offered: Seq<CandidateView>,
    i: int,
)
    requires
        strategy == LLMSelectionStrategy::PreferLocal || strategy
            == LLMSelectionStrategy::LatencyOptimized,
        0 <= i < offered.len(),
        forall|j: int| 0 <= j < i ==> !(#[trigger] offered[j]).local,
        offered[i].local || (i == 0 && forall|j: int|
            0 <= j < offered.len() ==> !(#[trigger] offered[j]).local),
    ensures
        pick(strategy, offered) == Some(offered[i]),
    decreases offered.len(),
{
    let rest = offered.drop_last();
    if i == offered.len() - 1 {
        if rest.len() > 0 {
            prefer_local_picks_first_local(strategy, rest, 0);
        }
    } else {
        assert(rest[i] == offered[i]);
        prefer_local_picks_first_local(strategy, rest, i);
    }
}

/// Preferring cloud models picks the first offer that is not local, and the
/// first offer where all are.
pub proof fn prefer_cloud_picks_first_remote(offered: Seq<CandidateView>, i: int)
    requires
        0 <= i < offered.len(),
        forall|j: int| 0 <= j < i ==> (#[trigger] offered[j]).local,
        !offered[i].local || (i == 0 && forall|j: int|
            0 <= j < offered.len() ==> (#[trigger] offered[j]).local),
    ensures
        pick(LLMSelectionStrategy::PreferCloud, offered) == Some(offered[i]),
    decreases offered.len(),
{
    let rest = offered.drop_last();
    if i == offered.len() - 1 {
        if rest.len() > 0 {
            prefer_cloud_picks_first_remote(rest, 0);
        }
    } else {
        assert(rest[i] == offered[i]);
        prefer_cloud_picks_first_remote(rest, i);
    }
}

/// Under the cost strategy nothing that is offered is cheaper than the pick,
/// and nothing that is offered before it costs the same.
pub proof fn cost_strategy_picks_cheapest(offered: Seq<CandidateView>)
    requires
        offered.len() > 0,
    ensures
        exists|k: int|
            0 <= k < offered.len() && pick(LLMSelectionStrategy::CostOptimized, offered) == Some(
                #[trigger] offered[k],
            ) && (forall|i: int|
                0 <= i < offered.len() ==> !(#[trigger] offered[i]).cost.lower(offered[k].cost))
                && (forall|i: int|
                0 <= i < k ==> (#[trigger] offered[i]).cost.rank != offered[k].cost.rank),
    decreases offered.len(),
{
    let rest = offered.drop_last();
    let end = offered.len() - 1;
    assert(offered[end] == offered.last());
    if rest.len() > 0 {
        cost_strategy_picks_cheapest(rest);
        let k = choose|k: int|
            0 <= k < rest.len() && pick(LLMSelectionStrategy::CostOptimized, rest) == Some(
                #[trigger] rest[k],
            ) && (forall|i: int|
                0 <= i < rest.len() ==> !(#[trigger] rest[i]).cost.lower(rest[k].cost)) && (forall|
                i: int,
            |
                0 <= i < k ==> (#[trigger] rest[i]).cost.rank != rest[k].cost.rank);
        assert forall|i: int| 0 <= i < rest.len() implies #[trigger] offered[i] == rest[i] by {}
        assert(offered[k] == rest[k]);
    }
}

proof fn lemma_offer_has_source(
    provider: LLMProviderConfig,
    alias: Seq<char>,
    k: nat,
    c: CandidateView,
)
    requires
        offers_of(provider, alias, k).contains(c),
        k <= provider.models@.len(),
    ensures
        exists|m: int|
            0 <= m < k && #[trigger] provider.models@[m].alias@ == alias && c == candidate_of(
                provider,
                provider.models@[m],
            ),
    decreases k,
{
    if k > 0 {
        let before = offers_of(provider, alias, (k - 1) as nat);
        let j = choose|j: int|
            0 <= j < offers_of(provider, alias, k).len() && offers_of(provider, alias, k)[j] == c;
        if provider.models@[k - 1].alias@ == alias && j == before.len() {
            assert(provider.models@[k - 1].alias@ == alias);
        } else {
            assert(before[j] == c);
            lemma_offer_has_source(provider, alias, (k - 1) as nat, c);
        }
    }
}

proof fn lemma_offers_have_source(
    providers: Seq<LLMProviderConfig>,
    resolved: Seq<Result<String, Failure>>,
    alias: Seq<char>,
    n: nat,
    c: CandidateView,
) -> (r: (int, int))
    requires
        offers(providers, resolved, alias, n).contains(c),
        n <= providers.len(),
    ensures
        0 <= r.0 < n,
        considered(providers[r.0], resolved[r.0]),
        0 <= r.1 < providers[r.0].models@.len(),
        providers[r.0].models@[r.1].alias@ == alias,
        c == candidate_of(providers[r.0], providers[r.0].models@[r.1]),
    decreases n,
{
    let before = offers(providers, resolved, alias, (n - 1) as nat);
    let all = offers(providers, resolved, alias, n);
    let j = choose|j: int| 0 <= j < all.len() && all[j] == c;
    if j < before.len() {
        assert(before[j] == c);
        lemma_offers_have_source(providers, resolved, alias, (n - 1) as nat, c)
    } else {
        let p = providers[n - 1];
        let own = offers_of(p, alias, p.models@.len());
        assert(own[j - before.len()] == c);
        lemma_offer_has_source(p, alias, p.models@.len(), c);
        let m = choose|m: int|
            0 <= m < p.models@.len() && #[trigger] p.models@[m].alias@ == alias && c
                == candidate_of(p, p.models@[m]);
        (n - 1, m)
    }
}

proof fn lemma_pick_is_offered(strategy: LLMSelectionStrategy, offered: Seq<CandidateView>)
    requires
        offered.len() > 0,
    ensures
        pick(strategy, offered) is Some,
        offered.contains(pick(strategy, offered)->0),
    decreases offered.len(),
{
    let rest = offered.drop_last();
    assert(offered[offered.len() - 1] == offered.last());
    if rest.len() > 0 {
        lemma_pick_is_offered(strategy, rest);
        let ahead = pick(strategy, rest)->0;
        let j = choose|j: int| 0 <= j < rest.len() && rest[j] == ahead;
        assert(offered[j] == ahead);
    }
}

/// Whether one of the first `k` models of a provider is `model`, offered under
/// `alias`.
pub open spec fn offers_model(
    provider: LLMProviderConfig,
    alias: Seq<char>,
    model: Seq<char>,
    k: nat,
) -> bool {
    exists|m: int|
        0 <= m < k && (#[trigger] provider.models@[m]).alias@ == alias
            && provider.models@[m].model@ == model
}

/// Whether a provider answers for what won `alias`: it is enabled, bears the
/// winner's name, offers the model under the alias, and its adapter can be
/// made.
pub open spec fn serves(
    provider: LLMProviderConfig,
    resolved: Result<String, Failure>,
    alias: Seq<char>,
    winner: CandidateView,
) -> bool {
    &&& provider.enabled
    &&& provider.name@ == winner.provider
    &&& offers_model(provider, alias, winner.model, provider.models@.len())
    &&& adapter_of(provider, resolved, winner.model) is Some
}

/// The last of the first `n` providers that answers for what won `alias`.
/// Where no two providers bear the same name there is one at most.
pub open spec fn last_serving(
    providers: Seq<LLMProviderConfig>,
    resolved: Seq<Result<String, Failure>>,
    alias: Seq<char>,
    winner: CandidateView,
    n: nat,
) -> Option<int>
    decreases n,
{
    if n == 0 {
        None
    } else if serves(providers[n - 1], resolved[n - 1], alias, winner) {
        Some(n - 1)
    } else {
        last_serving(providers, resolved, alias, winner, (n - 1) as nat)
    }
}

proof fn lemma_last_serving(
    providers: Seq<LLMProviderConfig>,
    resolved: Seq<Result<String, Failure>>,
    alias: Seq<char>,
    winner: CandidateView,
    n: nat,
    i: int,
)
    requires
        0 <= i < n,
        serves(providers[i], resolved[i], alias, winner),
    ensures
        last_serving(providers, resolved, alias, winner, n) is Some,
        ({
            let p = last_serving(providers, resolved, alias, winner, n)->0;
            i <= p < n && serves(providers[p], resolved[p], alias, winner)
        }),
    decreases n,
{
    if i < n - 1 && !serves(providers[n - 1], resolved[n - 1], alias, winner) {
        lemma_last_serving(providers, resolved, alias, winner, (n - 1) as nat, i);
    }
}

/// Whether the tables hold, of `alias`, the adapter and the API key of a
/// provider for `model`.
spec fn holds_of(
    tables: AliasTables,
    alias: Seq<char>,
    provider: LLMProviderConfig,
    resolved: Result<String, Failure>,
    model: Seq<char>,
) -> bool {
    &&& tables.adapters.contains_key(alias)
    &&& adapter_of(provider, resolved, model) == Some(tables.adapters[alias])
    &&& tables.raw_api_keys.contains_key(alias)
    &&& tables.raw_api_keys[alias] == provider.api_key
}

/// Whether both tables hold the same adapter and API key of `alias`.
spec fn same_of(a: AliasTables, b: AliasTables, alias: Seq<char>) -> bool {
    &&& a.adapters.contains_key(alias) == b.adapters.contains_key(alias)
    &&& a.adapters[alias] == b.adapters[alias]
    &&& a.raw_api_keys.contains_key(alias) == b.raw_api_keys.contains_key(alias)
    &&& a.raw_api_keys[alias] == b.raw_api_keys[alias]
}

proof fn lemma_tables_after_models(
    tables: AliasTables,
    winners: Map<Seq<char>, CandidateView>,
    provider: LLMProviderConfig,
    resolved: Result<String, Failure>,
    alias: Seq<char>,
    k: nat,
)
    requires
        k <= provider.models@.len(),
    ensures
        ({
            let after = with_models(tables, winners, provider, resolved, k);
            let winner = winners[alias];
            if winners.contains_key(alias) && winner.provider == provider.name@ && adapter_of(
                provider,
                resolved,
                winner.model,
            ) is Some && offers_model(provider, alias, winner.model, k) {
                holds_of(after, alias, provider, resolved, winner.model)
            } else {
                same_of(after, tables, alias)
            }
        }),
    decreases k,
{
    if k > 0 {
        lemma_tables_after_models(tables, winners, provider, resolved, alias, (k - 1) as nat);
        let last = provider.models@[k - 1];
        if !(last.alias@ == alias && last.model@ == winners[alias].model) {
            assert(offers_model(provider, alias, winners[alias].model, k) ==> offers_model(
                provider,
                alias,
                winners[alias].model,
                (k - 1) as nat,
            ));
        }
    }
}

proof fn lemma_tables_after_providers(
    winners: Map<Seq<char>, CandidateView>,
    providers: Seq<LLMProviderConfig>,
    resolved: Seq<Result<String, Failure>>,
    alias: Seq<char>,
    n: nat,
)
    requires
        n <= providers.len(),
    ensures
        ({
            let after = with_providers(winners, providers, resolved, n);
            if winners.contains_key(alias) {
                match last_serving(providers, resolved, alias, winners[alias], n) {
                    Some(p) => holds_of(
                        after,
                        alias,
                        providers[p],
                        resolved[p],
                        winners[alias].model,
                    ),
                    None => !after.adapters.contains_key(alias),
                }
            } else {
                !after.adapters.contains_key(alias)
            }
        }),
    decreases n,
{
    if n > 0 {
        lemma_tables_after_providers(winners, providers, resolved, alias, (n - 1) as nat);
        let before = with_providers(winners, providers, resolved, (n - 1) as nat);
        let p = providers[n - 1];
        if p.enabled {
            lemma_tables_after_models(
                before,
                winners,
                p,
                resolved[n - 1],
                alias,
                p.models@.len(),
            );
        }
    }
}

/// A registry made from a configuration knows exactly the aliases that some
/// considered provider offers. It maps each to the model that the strategy
/// picks among the offers, with the adapter and the API key of the provider
/// that the pick came from.
pub proof fn aliases_are_what_is_offered(
    registry: ProviderRegistry,
    config: NodeConfigManifest,
    resolved: Seq<Result<String, Failure>>,
    alias: Seq<char>,
)
    requires
        registry.follows(config, resolved),
        resolved.len() == config.spec.llm_providers@.len(),
    ensures
        ({
            let providers = config.spec.llm_providers@;
            let offered = offers(providers, resolved, alias, providers.len());
            let winner = pick(config.spec.llm_selection.strategy, offered)->0;
            let served = last_serving(providers, resolved, alias, winner, providers.len());
            &&& registry.alias_map@.contains_key(alias) <==> offered.len() > 0
            &&& offered.len() > 0 ==> {
                &&& registry.alias_map@[alias].model == winner.model
                &&& served matches Some(p) && 0 <= p < providers.len() && serves(
                    providers[p],
                    resolved[p],
                    alias,
                    winner,
                ) && adapter_of(providers[p], resolved[p], winner.model) == Some(
                    registry.alias_map@[alias],
                ) && registry.raw_api_keys@.contains_key(alias) && registry.raw_api_keys@[alias]
                    == providers[p].api_key
            }
        }),
{
    let providers = config.spec.llm_providers@;
    let strategy = config.spec.llm_selection.strategy;
    let n = providers.len();
    let offered = offers(providers, resolved, alias, n);
    let winners = after_providers(strategy, providers, resolved, n);
    winner_is_pick(strategy, providers, resolved, alias, n);
    lemma_tables_after_providers(winners, providers, resolved, alias, n);
    if offered.len() > 0 {
        lemma_pick_is_offered(strategy, offered);
        let c = pick(strategy, offered)->0;
        let (i, m) = lemma_offers_have_source(providers, resolved, alias, n, c);
        assert(providers[i].models@[m].alias@ == alias);
        assert(serves(providers[i], resolved[i], alias, c));
        lemma_last_serving(providers, resolved, alias, c, n, i);
    }
}

/// Whether repeating a call, or making it to another provider with the same
/// credentials, cannot change its outcome.
pub open spec fn non_retryable(e: LLMError) -> bool {
    e is Authentication || e is InvalidInput || e is ModelNotFound
}

/// Whether the upstream refused for good. A service that is unavailable is
/// under load: that is worth another try.
pub fn is_non_retryable(e: &LLMError) -> (r: bool)
    ensures
        r == non_retryable(*e),
{
    match e {
        LLMError::Authentication(_) => true,
        LLMError::InvalidInput(_) => true,
        LLMError::ModelNotFound(_) => true,
        _ => false,
    }
}

/// Two to the power of the attempt, at most of [`MAX_BACKOFF_EXPONENT`].
pub open spec fn backoff_factor(attempt: nat) -> nat {
    vstd::arithmetic::power2::pow2(if attempt < MAX_BACKOFF_EXPONENT {
            attempt
        } else {
            MAX_BACKOFF_EXPONENT as nat
        })
}

/// The pause after a failed attempt: the base delay, doubled with each attempt,
/// at most [`MAX_BACKOFF_MS`].
pub open spec fn backoff(delay_ms: nat, attempt: nat) -> nat {
    let grown = delay_ms * backoff_factor(attempt);
    if grown < MAX_BACKOFF_MS {
        grown
    } else {
        MAX_BACKOFF_MS as nat
    }
}

/// The pause after a failed attempt, in milliseconds.
pub fn backoff_ms(delay_ms: u64, attempt: u32) -> (r: u64)
    ensures
        r == backoff(delay_ms as nat, attempt as nat),
{
    let exponent: u32 = if attempt < MAX_BACKOFF_EXPONENT {
        attempt
    } else {
        MAX_BACKOFF_EXPONENT
    };
    let mut factor: u64 = 1;
    let mut k: u32 = 0;
    proof {
        vstd::arithmetic::power2::lemma2_to64();
    }
    while k < exponent
        invariant
            k <= exponent <= 16,
            factor == vstd::arithmetic::power2::pow2(k as nat),
            factor <= 65536,
        decreases exponent - k,
    {
        proof {
            vstd::arithmetic::power2::lemma_pow2_unfold((k + 1) as nat);
            if k < 15 {
                vstd::arithmetic::power2::lemma_pow2_strictly_increases((k + 1) as nat, 16);
            }
            vstd::arithmetic::power2::lemma2_to64();
        }
        factor = factor * 2;
        k = k + 1;
    }
    match delay_ms.checked_mul(factor) {
        Some(grown) => if grown < MAX_BACKOFF_MS {
            grown
        } else {
            MAX_BACKOFF_MS
        },
        None => MAX_BACKOFF_MS,
    }
}

/// The pause never exceeds [`MAX_BACKOFF_MS`] and never shrinks from one
/// attempt to a later one.
pub proof fn backoff_is_bounded_and_grows(delay_ms: nat, earlier: nat, later: nat)
    requires
        earlier <= later,
    ensures
        backoff(delay_ms, later) <= MAX_BACKOFF_MS,
        backoff(delay_ms, earlier) <= backoff(delay_ms, later),
{
    let a = if earlier < MAX_BACKOFF_EXPONENT {
        earlier
    } else {
        MAX_BACKOFF_EXPONENT as nat
    };
    let b = if later < MAX_BACKOFF_EXPONENT {
        later
    } else {
        MAX_BACKOFF_EXPONENT as nat
    };
    if a < b {
        vstd::arithmetic::power2::lemma_pow2_strictly_increases(a, b);
    }
    let x = vstd::arithmetic::power2::pow2(a);
    let y = vstd::arithmetic::power2::pow2(b);
    assert(delay_ms * x <= delay_ms * y) by (nonlinear_arith)
        requires
            x <= y,
    ;
}

/// Which call is being repeated: a chat call stops at errors that no repetition
/// can mend, a text call repeats whatever the error.
#[derive(Clone, Copy, Debug, PartialEq, Eq, Structural)]
pub enum CallKind {
    Chat,
    Text,
}

/// What a call that was just made leads to.
#[derive(Debug)]
pub enum CallStep {
    /// Call the alias's own adapter.
    Attempt { attempt: u32 },
    /// Wait, then go on with [`RetryPlan::after_pause`].
    Pause { millis: u64, attempt: u32, error: LLMError },
    /// Make the call in [`PreparedCall::fallback`]; what it answers is the
    /// answer.
    Fallback,
    /// Answer with the error.
    Fail(LLMError),
}

/// How a call is repeated.
#[derive(Clone, Copy, Debug, PartialEq, Eq, Structural)]
pub struct RetryPlan {
    pub kind: CallKind,
    pub max_retries: u32,
    pub retry_delay_ms: u64,
    pub has_fallback: bool,
}

impl RetryPlan {
    /// What a failed attempt leads to.
    pub open spec fn error_step(self, attempt: u32, error: LLMError) -> CallStep {
        if self.kind == CallKind::Chat && non_retryable(error) {
            CallStep::Fail(error)
        } else if attempt + 1 == self.max_retries && self.has_fallback {
            CallStep::Fallback
        } else {
            CallStep::Pause {
                millis: backoff(self.retry_delay_ms as nat, attempt as nat) as u64,
                attempt,
                error,
            }
        }
    }

    /// What the pause after a failed attempt leads to.
    pub open spec fn pause_step(self, attempt: u32, error: LLMError) -> CallStep {
        if attempt + 1 < self.max_retries {
            CallStep::Attempt { attempt: (attempt + 1) as u32 }
        } else {
            CallStep::Fail(error)
        }
    }

    /// How a call begins: with an attempt, or with an error where none is
    /// allowed.
    pub fn begin(&self) -> (step: CallStep)
        ensures
            self.max_retries > 0 ==> step == (CallStep::Attempt { attempt: 0 }),
            self.max_retries == 0 ==> (step matches CallStep::Fail(e) && e matches
                LLMError::Provider(message) && message@ == "Unknown error"@),
    {
        if self.max_retries > 0 {
            CallStep::Attempt { attempt: 0 }
        } else {
            CallStep::Fail(LLMError::Provider("Unknown error".to_owned()))
        }
    }

    /// What a failed attempt leads to.
    pub fn after_error(&self, attempt: u32, error: LLMError) -> (step: CallStep)
        ensures
            step == self.error_step(attempt, error),
    {
        if let CallKind::Chat = self.kind {
            if is_non_retryable(&error) {
                return CallStep::Fail(error);
            }
        }
        if self.has_fallback && self.max_retries > 0 && attempt == self.max_retries - 1 {
            return CallStep::Fallback;
        }
        CallStep::Pause { millis: backoff_ms(self.retry_delay_ms, attempt), attempt, error }
    }

    /// What the pause after a failed attempt leads to.
    pub fn after_pause(&self, attempt: u32, error: LLMError) -> (step: CallStep)
        ensures
            step == self.pause_step(attempt, error),
    {
        if attempt < u32::MAX && attempt + 1 < self.max_retries {
            CallStep::Attempt { attempt: attempt + 1 }
        } else {
            CallStep::Fail(error)
        }
    }

    /// Where a call stands after the given errors came, one per attempt, from
    /// the attempt numbered `attempt` on.
    pub open spec fn stand(self, attempt: u32, errors: Seq<LLMError>) -> CallStep
        decreases errors.len(),
    {
        if errors.len() == 0 {
            CallStep::Attempt { attempt }
        } else {
            match self.error_step(attempt, errors[0]) {
                CallStep::Pause { .. } => match self.pause_step(attempt, errors[0]) {
                    CallStep::Attempt { attempt: next } => self.stand(next, errors.drop_first()),
                    step => step,
                },
                step => step,
            }
        }
    }
}

/// As long as attempts are left, errors that are worth a repetition lead to the
/// next attempt; when the last one failed so, the fallback is called where
/// there is one, else the last error is the answer.
pub proof fn attempts_are_used_up(plan: RetryPlan, attempt: u32, errors: Seq<LLMError>)
    requires
        attempt + errors.len() <= plan.max_retries,
        forall|i: int|
            0 <= i < errors.len() ==> plan.kind == CallKind::Text || !non_retryable(
                #[trigger] errors[i],
            ),
    ensures
        attempt + errors.len() < plan.max_retries ==> plan.stand(attempt, errors)
            == (CallStep::Attempt { attempt: (attempt + errors.len()) as u32 }),
        attempt + errors.len() == plan.max_retries && errors.len() > 0 ==> plan.stand(
            attempt,
            errors,
        ) == (if plan.has_fallback {
            CallStep::Fallback
        } else {
            CallStep::Fail(errors.last())
        }),
    decreases errors.len(),
{
    if errors.len() > 0 {
        if attempt + 1 < plan.max_retries {
            let rest = errors.drop_first();
            assert forall|i: int| 0 <= i < rest.len() implies plan.kind == CallKind::Text
                || !non_retryable(#[trigger] rest[i]) by {
                assert(rest[i] == errors[i + 1]);
            }
            attempts_are_used_up(plan, (attempt + 1) as u32, rest);
            if rest.len() > 0 {
                assert(rest.last() == errors.last());
            }
        }
    }
}

/// A chat call answers at once with an error that no repetition can mend: no
/// further attempt is made and the fallback is not called.
pub proof fn final_errors_end_a_chat_call(
    plan: RetryPlan,
    attempt: u32,
    errors: Seq<LLMError>,
    i: int,
)
    requires
        plan.kind == CallKind::Chat,
        attempt + errors.len() <= plan.max_retries,
        0 <= i < errors.len(),
        non_retryable(errors[i]),
        forall|j: int| 0 <= j < i ==> !non_retryable(#[trigger] errors[j]),
    ensures
        plan.stand(attempt, errors) == CallStep::Fail(errors[i]),
    decreases i,
{
    if i > 0 {
        let rest = errors.drop_first();
        assert(rest[i - 1] == errors[i]);
        assert forall|j: int| 0 <= j < i - 1 implies !non_retryable(#[trigger] rest[j]) by {
            assert(rest[j] == errors[j + 1]);
        }
        assert(!non_retryable(errors[0]));
        final_errors_end_a_chat_call(plan, (attempt + 1) as u32, rest, i - 1);
    }
}

/// A call to the fallback provider, ready to be made.
#[derive(Debug)]
pub struct FallbackCall {
    pub model: String,
    pub adapter: Adapter,
    /// The caller's own options: no alias overrides them.
    pub options: GenerationOptions,
}

/// A call to an alias, ready to be made.
#[derive(Debug)]
pub struct PreparedCall {
    pub model: String,
    pub adapter: Adapter,
    /// The options for the alias's own adapter.
    pub options: GenerationOptions,
    pub plan: RetryPlan,
    /// The call that is made where the plan says so.
    pub fallback: Option<FallbackCall>,
    /// Seconds after which the call, with its repetitions and its fallback, is
    /// given up.
    pub budget_secs: u64,
}

impl ProviderRegistry {
    /// The options with what the alias overrides.
    pub open spec fn alias_options(self, alias: Seq<char>, options: GenerationOptions) -> GenerationOptions {
        GenerationOptions {
            max_tokens: if self.alias_max_output_tokens@.contains_key(alias) {
                Some(self.alias_max_output_tokens@[alias])
            } else {
                options.max_tokens
            },
            temperature: if self.alias_temperatures@.contains_key(alias) {
                Some(Temperature { bits: self.alias_temperatures@[alias] })
            } else {
                options.temperature
            },
        }
    }

    /// The options with what the alias overrides.
    fn apply_alias_options(&self, alias: &str, options: &GenerationOptions) -> (r:
        GenerationOptions)
        ensures
            r == self.alias_options(alias@, *options),
    {
        let mut r = *options;
        if let Some(n) = self.alias_max_output_tokens.get(alias) {
            r.max_tokens = Some(*n);
        }
        if let Some(t) = self.alias_temperatures.get(alias) {
            r.temperature = Some(*t);
        }
        r
    }

    /// Whether `call` is the call to `alias` that the registry prepares.
    pub open spec fn prepares(
        self,
        kind: CallKind,
        alias: Seq<char>,
        options: GenerationOptions,
        call: PreparedCall,
    ) -> bool {
        &&& self.alias_map@.contains_key(alias)
        &&& call.adapter@ == self.alias_map@[alias]
        &&& call.model@ == self.alias_map@[alias].model
        &&& call.options == self.alias_options(alias, options)
        &&& call.plan == (RetryPlan {
            kind,
            max_retries: self.max_retries,
            retry_delay_ms: self.retry_delay_ms,
            has_fallback: self.fallback_provider is Some,
        })
        &&& match (self.fallback_provider, call.fallback) {
            (Some(provider), Some(fallback)) => {
                &&& fallback.model@ == provider.0@
                &&& fallback.adapter@ == provider.1@
                &&& fallback.options == options
            },
            (None, None) => true,
            _ => false,
        }
        &&& call.budget_secs == (if self.llm_overall_timeout_secs == 0 {
            1
        } else {
            self.llm_overall_timeout_secs
        })
    }

    fn prepare(&self, kind: CallKind, alias: &str, options: &GenerationOptions) -> (r: Result<
        PreparedCall,
        LLMError,
    >)
        ensures
            match r {
                Ok(call) => self.prepares(kind, alias@, *options, call),
                Err(e) => {
                    &&& !self.alias_map@.contains_key(alias@)
                    &&& e matches LLMError::ModelNotFound(message) && message@ == "Model alias '"@
                        + alias@ + "' not found"@
                },
            },
    {
        match self.alias_map.get(alias) {
            None => Err(
                LLMError::ModelNotFound(
                    "Model alias '".to_owned().concat(alias).concat("' not found"),
                ),
            ),
            Some(adapter) => Ok(
                PreparedCall {
                    model: adapter.model.clone(),
                    adapter: adapter.copy(),
                    options: self.apply_alias_options(alias, options),
                    plan: RetryPlan {
                        kind,
                        max_retries: self.max_retries,
                        retry_delay_ms: self.retry_delay_ms,
                        has_fallback: self.fallback_provider.is_some(),
                    },
                    fallback: match &self.fallback_provider {
                        Some((model, adapter)) => Some(
                            FallbackCall {
                                model: model.clone(),
                                adapter: adapter.copy(),
                                options: *options,
                            },
                        ),
                        None => None,
                    },
                    budget_secs: if self.llm_overall_timeout_secs == 0 {
                        1
                    } else {
                        self.llm_overall_timeout_secs
                    },
                },
            ),
        }
    }

    /// A chat call to `alias`: the adapter and options to make it with, how it
    /// is repeated, and the fallback to make in the end.
    pub fn generate_chat(&self, alias: &str, options: &GenerationOptions) -> (r: Result<
        PreparedCall,
        LLMError,
    >)
        ensures
            match r {
                Ok(call) => self.prepares(CallKind::Chat, alias@, *options, call),
                Err(e) => {
                    &&& !self.alias_map@.contains_key(alias@)
                    &&& e matches LLMError::ModelNotFound(message) && message@ == "Model alias '"@
                        + alias@ + "' not found"@
                },
            },
    {
        self.prepare(CallKind::Chat, alias, options)
    }

    /// A text call to `alias`: the adapter and options to make it with, how it
    /// is repeated, and the fallback to make in the end.
    pub fn generate(&self, alias: &str, options: &GenerationOptions) -> (r: Result<
        PreparedCall,
        LLMError,
    >)
        ensures
            match r {
                Ok(call) => self.prepares(CallKind::Text, alias@, *options, call),
                Err(e) => {
                    &&& !self.alias_map@.contains_key(alias@)
                    &&& e matches LLMError::ModelNotFound(message) && message@ == "Model alias '"@
                        + alias@ + "' not found"@
                },
            },
    {
        self.prepare(CallKind::Text, alias, options)
    }

    /// The error of a call whose time ran out.
    pub fn timed_out(budget_secs: u64) -> (e: LLMError)
        ensures
            e matches LLMError::Network(message) && message@ == "upstream timeout after "@
                + text::decimal_digits(budget_secs as nat) + "s"@,
    {
        LLMError::Network(
            "upstream timeout after ".to_owned().concat(decimal(budget_secs).as_str()).concat("s"),
        )
    }

    /// The adapter of the default alias, on which the registry's own health
    /// depends.
    pub fn default_adapter(&self) -> (r: Result<Adapter, LLMError>)
        ensures
            match r {
                Ok(adapter) => self.alias_map@.contains_key("default"@) && adapter@
                    == self.alias_map@["default"@],
                Err(e) => {
                    &&& !self.alias_map@.contains_key("default"@)
                    &&& e matches LLMError::Provider(message) && message@
                        == "Default model alias not configured"@
                },
            },
    {
        match self.alias_map.get("default") {
            Some(adapter) => Ok(adapter.copy()),
            None => Err(LLMError::Provider("Default model alias not configured".to_owned())),
        }
    }

    /// The names of the providers whose health is checked.
    pub fn provider_names(&self) -> (r: Vec<String>)
        ensures
            text::texts(r@).no_duplicates(),
            forall|k: Seq<char>|
                #[trigger] text::texts(r@).contains(k) <==> self.providers@.contains_key(k),
    {
        self.providers.keys()
    }

    /// The aliases that the registry knows.
    pub fn available_aliases(&self) -> (r: Vec<String>)
        ensures
            text::texts(r@).no_duplicates(),
            forall|k: Seq<char>|
                #[trigger] text::texts(r@).contains(k) <==> self.alias_map@.contains_key(k),
    {
        self.alias_map.keys()
    }

    /// Whether the registry knows `alias`.
    pub fn has_alias(&self, alias: &str) -> (r: bool)
        ensures
            r == self.alias_map@.contains_key(alias@),
    {
        self.alias_map.contains_key(alias)
    }

    /// Whether the key behind `alias` is the user's own: one that is given
    /// literally, not through an environment variable.
    pub fn key_source_for_alias(&self, alias: &str) -> (r: ApiKeySource)
        ensures
            r == (if self.raw_api_keys@.contains_key(alias@) && (
            self.raw_api_keys@[alias@] matches Some(key) && !"env:"@.is_prefix_of(key@)) {
                ApiKeySource::User
            } else {
                ApiKeySource::Platform
            }),
    {
        match self.raw_api_keys.get(alias) {
            Some(Some(key)) => if starts_with(key.as_str(), "env:") {
                ApiKeySource::Platform
            } else {
                ApiKeySource::User
            },
            _ => ApiKeySource::Platform,
        }
    }
}

/// A failed attempt of a chat call ends the call exactly where the error is
/// one of credentials, of input or of an unknown model. Every other error, and
/// every error of a text call, leads to a pause and then to the next attempt
/// while attempts are left; after the last one it leads to the fallback, or to
/// the error where there is none.
pub proof fn repetition_follows_the_error(plan: RetryPlan, attempt: u32, error: LLMError)
    requires
        attempt < plan.max_retries,
    ensures
        plan.error_step(attempt, error) is Fail <==> plan.kind is Chat && (error is Authentication
            || error is InvalidInput || error is ModelNotFound),
        plan.error_step(attempt, error) is Fail ==> plan.error_step(attempt, error)
            == CallStep::Fail(error),
        plan.kind is Text || error is Network || error is RateLimit || error is Provider
            || error is ServiceUnavailable ==> {
            &&& attempt + 1 < plan.max_retries ==> {
                &&& plan.error_step(attempt, error) matches CallStep::Pause {
                    attempt: a,
                    error: e,
                    ..
                } && a == attempt && e == error
                &&& plan.pause_step(attempt, error) matches CallStep::Attempt { attempt: next }
                    && next == attempt + 1
            }
            &&& attempt + 1 == plan.max_retries && plan.has_fallback ==> plan.error_step(
                attempt,
                error,
            ) is Fallback
            &&& attempt + 1 == plan.max_retries && !plan.has_fallback ==> {
                &&& plan.error_step(attempt, error) is Pause
                &&& plan.pause_step(attempt, error) == CallStep::Fail(error)
            }
        },
        !(plan.error_step(attempt, error) is Attempt),
{
}

/// Errors of the network, of limits, of the provider and of its load use up
/// every attempt of a chat call: the next attempt follows while one is left,
/// then the fallback, or the last error where there is none.
pub proof fn transient_errors_are_repeated(plan: RetryPlan, attempt: u32, errors: Seq<LLMError>)
    requires
        attempt + errors.len() <= plan.max_retries,
        forall|i: int|
            0 <= i < errors.len() ==> plan.kind is Text || (#[trigger] errors[i]) is Network
                || errors[i] is RateLimit || errors[i] is Provider
                || errors[i] is ServiceUnavailable,
    ensures
        attempt + errors.len() < plan.max_retries ==> plan.stand(attempt, errors)
            == (CallStep::Attempt { attempt: (attempt + errors.len()) as u32 }),
        attempt + errors.len() == plan.max_retries && errors.len() > 0 && plan.has_fallback
            ==> plan.stand(attempt, errors) is Fallback,
        attempt + errors.len() == plan.max_retries && errors.len() > 0 && !plan.has_fallback
            ==> plan.stand(attempt, errors) == CallStep::Fail(errors.last()),
{
    attempts_are_used_up(plan, attempt, errors);
}

/// The pause after the first attempt is the configured delay, and each pause is
/// twice the one before it for the first sixteen; none is longer than 65536
/// seconds, and from the seventeenth attempt on they stay the same.
pub proof fn pauses_double(plan: RetryPlan, attempt: u32, error: LLMError, next_error: LLMError)
    requires
        plan.error_step(attempt, error) is Pause,
        attempt < u32::MAX,
        plan.error_step((attempt + 1) as u32, next_error) is Pause,
    ensures
        ({
            let millis = plan.error_step(attempt, error)->millis;
            let next = plan.error_step((attempt + 1) as u32, next_error)->millis;
            &&& millis <= 65_536_000 && next <= 65_536_000
            &&& attempt == 0 && plan.retry_delay_ms <= 65_536_000 ==> millis == plan.retry_delay_ms
            &&& attempt == 0 && plan.retry_delay_ms > 65_536_000 ==> millis == 65_536_000
            &&& attempt < 16 && 2 * millis <= 65_536_000 ==> next == 2 * millis
            &&& attempt < 16 && 2 * millis > 65_536_000 ==> next == 65_536_000
            &&& attempt >= 16 ==> next == millis
        }),
{
    let d = plan.retry_delay_ms as nat;
    vstd::arithmetic::power2::lemma2_to64();
    if attempt < 16 {
        vstd::arithmetic::power2::lemma_pow2_unfold((attempt + 1) as nat);
        let p = vstd::arithmetic::power2::pow2(attempt as nat);
        assert(d * (2 * p) == 2 * (d * p)) by (nonlinear_arith);
        assert(backoff_factor((attempt + 1) as nat) == 2 * p);
        assert(backoff_factor(attempt as nat) == p);
    }
    if attempt == 0 {
        assert(d * 1 == d);
    }
}

/// What tells the provider types apart.
proof fn lemma_provider_types_differ()
    ensures
        "openai"@.len() == 6,
        "openai"@[0] == 'o',
        "openai"@[1] == 'p',
        "ollama"@.len() == 6,
        "ollama"@[0] == 'o',
        "ollama"@[1] == 'l',
        "gemini"@.len() == 6,
        "gemini"@[0] == 'g',
        "anthropic"@.len() == 9,
        "openai-compatible"@.len() == 17,
{
    reveal_strlit("openai");
    reveal_strlit("ollama");
    reveal_strlit("gemini");
    reveal_strlit("anthropic");
    reveal_strlit("openai-compatible");
}

/// Whether an adapter can be made for a provider: its type is known, and its
/// API key, if one is configured, could be resolved.
pub open spec fn usable(provider: LLMProviderConfig, resolved: Result<String, Failure>) -> bool {
    &&& {
        ||| provider.provider_type@ == "openai"@
        ||| provider.provider_type@ == "openai-compatible"@
        ||| provider.provider_type@ == "anthropic"@
        ||| provider.provider_type@ == "gemini"@
        ||| provider.provider_type@ == "ollama"@
    }
    &&& provider.api_key is None || resolved is Ok
}

/// Whether an adapter is the one that a provider's configuration asks for: the
/// protocol of its type, its own endpoint or the public one of the protocol, the
/// resolved key where the protocol takes one, and the model.
pub open spec fn speaks_for(
    adapter: AdapterView,
    provider: LLMProviderConfig,
    resolved: Result<String, Failure>,
    model: Seq<char>,
) -> bool {
    &&& adapter.model == model
    &&& adapter.kind is OpenAI <==> provider.provider_type@ == "openai"@ || provider.provider_type@
        == "openai-compatible"@
    &&& adapter.kind is Anthropic <==> provider.provider_type@ == "anthropic"@
    &&& adapter.kind is Gemini <==> provider.provider_type@ == "gemini"@
    &&& adapter.kind is Ollama <==> provider.provider_type@ == "ollama"@
    &&& provider.endpoint@.len() > 0 ==> adapter.endpoint == provider.endpoint@
    &&& provider.endpoint@.len() == 0 ==> match adapter.kind {
        AdapterKind::OpenAI => adapter.endpoint == "https://api.openai.com/v1"@,
        AdapterKind::Anthropic => adapter.endpoint == "https://api.anthropic.com/v1"@,
        AdapterKind::Gemini => adapter.endpoint
            == "https://generativelanguage.googleapis.com/v1beta"@,
        AdapterKind::Ollama => adapter.endpoint == "http://localhost:11434"@,
    }
    &&& provider.provider_type@ == "ollama"@ || provider.api_key is None
        ==> adapter.api_key.len() == 0
    &&& provider.provider_type@ != "ollama"@ && provider.api_key is Some ==> resolved is Ok
        && adapter.api_key == resolved->Ok_0@
}

/// An adapter is made exactly for a usable provider, and is what its
/// configuration asks for.
pub proof fn adapters_follow_their_provider(
    provider: LLMProviderConfig,
    resolved: Result<String, Failure>,
    model: Seq<char>,
)
    ensures
        adapter_of(provider, resolved, model) is Some <==> usable(provider, resolved),
        usable(provider, resolved) ==> speaks_for(
            adapter_of(provider, resolved, model)->0,
            provider,
            resolved,
            model,
        ),
{
    lemma_provider_types_differ();
}

/// What is offered under an alias is what enabled, usable providers configure
/// under it, with their own name, side and price, and all of that.
pub proof fn offers_are_what_is_configured(
    providers: Seq<LLMProviderConfig>,
    resolved: Seq<Result<String, Failure>>,
    alias: Seq<char>,
    n: nat,
)
    requires
        n <= providers.len(),
        resolved.len() == providers.len(),
    ensures
        forall|k: int|
            0 <= k < offers(providers, resolved, alias, n).len() ==> is_configured(
                providers,
                resolved,
                alias,
                #[trigger] offers(providers, resolved, alias, n)[k],
            ),
        forall|i: int, m: int|
            0 <= i < n && 0 <= m < providers[i].models@.len() && providers[i].enabled && usable(
                providers[i],
                resolved[i],
            ) && (#[trigger] providers[i].models@[m]).alias@ == alias ==> exists|k: int|
                0 <= k < offers(providers, resolved, alias, n).len() && (
                #[trigger] offers(providers, resolved, alias, n)[k]).provider == providers[i].name@
                    && offers(providers, resolved, alias, n)[k].model
                    == providers[i].models@[m].model@ && offers(providers, resolved, alias, n)[k].local
                    == providers[i].local && offers(providers, resolved, alias, n)[k].cost
                    == providers[i].models@[m].cost_per_1k_tokens,
    decreases n,
{
    let all = offers(providers, resolved, alias, n);
    assert forall|k: int| 0 <= k < all.len() implies is_configured(
        providers,
        resolved,
        alias,
        #[trigger] all[k],
    ) by {
        assert(all.contains(all[k]));
        let (i, m) = lemma_offers_have_source(providers, resolved, alias, n, all[k]);
        adapters_follow_their_provider(
            providers[i],
            resolved[i],
            providers[i].models@[0].model@,
        );
        assert(providers[i].models@[m].alias@ == alias);
    }
    if n > 0 {
        offers_are_what_is_configured(providers, resolved, alias, (n - 1) as nat);
        let before = offers(providers, resolved, alias, (n - 1) as nat);
        assert forall|i: int, m: int|
            0 <= i < n && 0 <= m < providers[i].models@.len() && providers[i].enabled && usable(
                providers[i],
                resolved[i],
            ) && (#[trigger] providers[i].models@[m]).alias@ == alias implies exists|k: int|
                0 <= k < all.len() && (#[trigger] all[k]).provider == providers[i].name@
                    && all[k].model == providers[i].models@[m].model@ && all[k].local
                    == providers[i].local && all[k].cost
                    == providers[i].models@[m].cost_per_1k_tokens by {
            if i < n - 1 {
                let k = choose|k: int|
                    0 <= k < before.len() && (#[trigger] before[k]).provider == providers[i].name@
                        && before[k].model == providers[i].models@[m].model@ && before[k].local
                        == providers[i].local && before[k].cost
                        == providers[i].models@[m].cost_per_1k_tokens;
                assert(all[k] == before[k]);
            } else {
                adapters_follow_their_provider(
                    providers[i],
                    resolved[i],
                    providers[i].models@[0].model@,
                );
                let own = offers_of(providers[i], alias, providers[i].models@.len());
                let j = lemma_model_is_offered(
                    providers[i],
                    alias,
                    providers[i].models@.len(),
                    m,
                );
                assert(all == before + own);
                assert(all[before.len() + j] == own[j]);
            }
        }
    }
}

/// Whether a candidate is what some enabled, usable provider configures under
/// an alias.
pub open spec fn is_configured(
    providers: Seq<LLMProviderConfig>,
    resolved: Seq<Result<String, Failure>>,
    alias: Seq<char>,
    c: CandidateView,
) -> bool {
    exists|i: int, m: int|
        0 <= i < providers.len() && 0 <= m < providers[i].models@.len() && providers[i].enabled
            && usable(providers[i], resolved[i]) && (#[trigger] providers[i].models@[m]).alias@
            == alias && c.provider == providers[i].name@ && c.model == providers[i].models@[m].model@
            && c.local == providers[i].local && c.cost
            == providers[i].models@[m].cost_per_1k_tokens
}

proof fn lemma_model_is_offered(provider: LLMProviderConfig, alias: Seq<char>, k: nat, m: int) -> (j:
    int)
    requires
        0 <= m < k <= provider.models@.len(),
        provider.models@[m].alias@ == alias,
    ensures
        0 <= j < offers_of(provider, alias, k).len(),
        offers_of(provider, alias, k)[j].provider == provider.name@,
        offers_of(provider, alias, k)[j].model == provider.models@[m].model@,
        offers_of(provider, alias, k)[j].local == provider.local,
        offers_of(provider, alias, k)[j].cost == provider.models@[m].cost_per_1k_tokens,
    decreases k,
{
    if m == k - 1 {
        offers_of(provider, alias, (k - 1) as nat).len() as int
    } else {
        let j = lemma_model_is_offered(provider, alias, (k - 1) as nat, m);
        assert(offers_of(provider, alias, k)[j] == offers_of(provider, alias, (k - 1) as nat)[j]);
        j
    }
}

/// Among several offers the strategy picks one of the side that it prefers
/// wherever one of that side is offered, and by price none that is dearer than
/// another.
pub proof fn pick_keeps_to_the_strategy(
    strategy: LLMSelectionStrategy,
    offered: Seq<CandidateView>,
    i: int,
)
    requires
        0 <= i < offered.len(),
    ensures
        pick(strategy, offered) is Some,
        offered.contains(pick(strategy, offered)->0),
        strategy is PreferLocal && offered[i].local ==> pick(strategy, offered)->0.local,
        strategy is LatencyOptimized && offered[i].local ==> pick(strategy, offered)->0.local,
        strategy is PreferCloud && !offered[i].local ==> !pick(strategy, offered)->0.local,
        strategy is CostOptimized && offered[i].cost.rank is Some && pick(
            strategy,
            offered,
        )->0.cost.rank is Some ==> pick(strategy, offered)->0.cost.rank->0
            <= offered[i].cost.rank->0,
    decreases offered.len(),
{
    let rest = offered.drop_last();
    assert(offered[offered.len() - 1] == offered.last());
    if rest.len() > 0 {
        if i < rest.len() {
            assert(rest[i] == offered[i]);
            pick_keeps_to_the_strategy(strategy, rest, i);
        } else {
            pick_keeps_to_the_strategy(strategy, rest, 0);
        }
        let ahead = pick(strategy, rest)->0;
        let j = choose|j: int| 0 <= j < rest.len() && rest[j] == ahead;
        assert(offered[j] == ahead);
    }
}

/// Whether no two providers bear the same name.
pub open spec fn names_differ(providers: Seq<LLMProviderConfig>) -> bool {
    forall|i: int, j: int|
        0 <= i < providers.len() && 0 <= j < providers.len() && (#[trigger] providers[i]).name@ == (
        #[trigger] providers[j]).name@ ==> i == j
}

/// Where providers have names of their own, an alias that some enabled, usable
/// provider configures goes to such a provider: to one on the preferred side
/// where the strategy prefers one and this one stands there, and by price to
/// none that is dearer than this one. Its adapter and API key are that
/// provider's.
pub proof fn aliases_go_where_the_strategy_says(
    registry: ProviderRegistry,
    config: NodeConfigManifest,
    resolved: Seq<Result<String, Failure>>,
    alias: Seq<char>,
    i: int,
    m: int,
)
    requires
        registry.follows(config, resolved),
        resolved.len() == config.spec.llm_providers@.len(),
        names_differ(config.spec.llm_providers@),
        0 <= i < config.spec.llm_providers@.len(),
        config.spec.llm_providers@[i].enabled,
        usable(config.spec.llm_providers@[i], resolved[i]),
        0 <= m < config.spec.llm_providers@[i].models@.len(),
        config.spec.llm_providers@[i].models@[m].alias@ == alias,
    ensures
        registry.alias_map@.contains_key(alias),
        registry.raw_api_keys@.contains_key(alias),
        exists|p: int, q: int|
            0 <= p < config.spec.llm_providers@.len() && 0 <= q
                < config.spec.llm_providers@[p].models@.len() && goes_to(
                registry,
                config,
                resolved,
                alias,
                p,
                q,
            ) && #[trigger] suits(config, i, m, p, q),
{
    let providers = config.spec.llm_providers@;
    let strategy = config.spec.llm_selection.strategy;
    let n = providers.len();
    let offered = offers(providers, resolved, alias, n);
    offers_are_what_is_configured(providers, resolved, alias, n);
    assert(providers[i].models@[m].alias@ == alias);
    let k = choose|k: int|
        0 <= k < offered.len() && (#[trigger] offered[k]).provider == providers[i].name@
            && offered[k].model == providers[i].models@[m].model@ && offered[k].local
            == providers[i].local && offered[k].cost == providers[i].models@[m].cost_per_1k_tokens;
    pick_keeps_to_the_strategy(strategy, offered, k);
    aliases_are_what_is_offered(registry, config, resolved, alias);
    let winner = pick(strategy, offered)->0;
    let at = choose|at: int| 0 <= at < offered.len() && offered[at] == winner;
    assert(is_configured(providers, resolved, alias, offered[at]));
    let (p, q) = choose|p: int, q: int|
        0 <= p < providers.len() && 0 <= q < providers[p].models@.len() && providers[p].enabled
            && usable(providers[p], resolved[p]) && (#[trigger] providers[p].models@[q]).alias@
            == alias && winner.provider == providers[p].name@ && winner.model
            == providers[p].models@[q].model@ && winner.local == providers[p].local && winner.cost
            == providers[p].models@[q].cost_per_1k_tokens;
    let served = last_serving(providers, resolved, alias, winner, n)->0;
    assert(providers[served].name@ == providers[p].name@);
    adapters_follow_their_provider(providers[p], resolved[p], winner.model);
    assert(goes_to(registry, config, resolved, alias, p, q));
    assert(suits(config, i, m, p, q));
}

/// Whether the registry gives `alias` to the model `q` of the provider `p`.
pub open spec fn goes_to(
    registry: ProviderRegistry,
    config: NodeConfigManifest,
    resolved: Seq<Result<String, Failure>>,
    alias: Seq<char>,
    p: int,
    q: int,
) -> bool {
    let provider = config.spec.llm_providers@[p];
    &&& provider.enabled
    &&& usable(provider, resolved[p])
    &&& provider.models@[q].alias@ == alias
    &&& speaks_for(
        registry.alias_map@[alias],
        provider,
        resolved[p],
        provider.models@[q].model@,
    )
    &&& registry.raw_api_keys@[alias] == provider.api_key
}

/// Whether the strategy has nothing against the model `q` of the provider `p`
/// where the model `m` of the provider `i` could be had.
pub open spec fn suits(config: NodeConfigManifest, i: int, m: int, p: int, q: int) -> bool {
    let own = config.spec.llm_providers@[i];
    let chosen = config.spec.llm_providers@[p];
    match config.spec.llm_selection.strategy {
        LLMSelectionStrategy::PreferLocal => own.local ==> chosen.local,
        LLMSelectionStrategy::LatencyOptimized => own.local ==> chosen.local,
        LLMSelectionStrategy::PreferCloud => !own.local ==> !chosen.local,
        LLMSelectionStrategy::CostOptimized => match (
            chosen.models@[q].cost_per_1k_tokens.rank,
            own.models@[m].cost_per_1k_tokens.rank,
        ) {
            (Some(paid), Some(asked)) => paid <= asked,
            _ => true,
        },
    }
}

/// An alias that no enabled, usable provider configures is not known.
pub proof fn unconfigured_aliases_are_unknown(
    registry: ProviderRegistry,
    config: NodeConfigManifest,
    resolved: Seq<Result<String, Failure>>,
    alias: Seq<char>,
)
    requires
        registry.follows(config, resolved),
        resolved.len() == config.spec.llm_providers@.len(),
        registry.alias_map@.contains_key(alias),
    ensures
        exists|i: int, m: int|
            0 <= i < config.spec.llm_providers@.len() && 0 <= m
                < config.spec.llm_providers@[i].models@.len()
                && config.spec.llm_providers@[i].enabled && usable(
                config.spec.llm_providers@[i],
                resolved[i],
            ) && (#[trigger] config.spec.llm_providers@[i].models@[m]).alias@ == alias,
{
    let providers = config.spec.llm_providers@;
    aliases_are_what_is_offered(registry, config, resolved, alias);
    offers_are_what_is_configured(providers, resolved, alias, providers.len());
    let offered = offers(providers, resolved, alias, providers.len());
    assert(is_configured(providers, resolved, alias, offered[0]));
    let (i, m) = choose|i: int, m: int|
        0 <= i < providers.len() && 0 <= m < providers[i].models@.len() && providers[i].enabled
            && usable(providers[i], resolved[i]) && (#[trigger] providers[i].models@[m]).alias@
            == alias && offered[0].provider == providers[i].name@ && offered[0].model
            == providers[i].models@[m].model@ && offered[0].local == providers[i].local
            && offered[0].cost == providers[i].models@[m].cost_per_1k_tokens;
    assert(providers[i].models@[m].alias@ == alias);
}

/// Providers are known for health checks exactly where they are enabled, usable
/// and have a model; with names of their own, each by the adapter for its first
/// model.
pub proof fn health_is_checked_with_first_models(
    providers: Seq<LLMProviderConfig>,
    resolved: Seq<Result<String, Failure>>,
    n: nat,
    name: Seq<char>,
)
    requires
        n <= providers.len(),
        resolved.len() == providers.len(),
    ensures
        health_adapters(providers, resolved, n).contains_key(name) <==> exists|i: int|
            0 <= i < n && (#[trigger] providers[i]).name@ == name && providers[i].enabled && usable(
                providers[i],
                resolved[i],
            ) && providers[i].models@.len() > 0,
        names_differ(providers) ==> forall|i: int|
            0 <= i < n && (#[trigger] providers[i]).name@ == name && providers[i].enabled && usable(
                providers[i],
                resolved[i],
            ) && providers[i].models@.len() > 0 ==> speaks_for(
                health_adapters(providers, resolved, n)[name],
                providers[i],
                resolved[i],
                providers[i].models@[0].model@,
            ),
    decreases n,
{
    if n > 0 {
        health_is_checked_with_first_models(providers, resolved, (n - 1) as nat, name);
        let p = providers[n - 1];
        adapters_follow_their_provider(p, resolved[n - 1], p.models@[0].model@);
        if p.name@ == name && considered(p, resolved[n - 1]) && p.models@.len() > 0 {
            assert(providers[n - 1].name@ == name);
        }
    }
}

/// Where providers have names of their own, the fallback is the first model of
/// the provider that the configuration names, behind that provider's adapter;
/// there is none where none is named, or where the one that is named is
/// disabled, unusable or without models.
pub proof fn fallback_is_the_provider_named(
    registry: ProviderRegistry,
    config: NodeConfigManifest,
    resolved: Seq<Result<String, Failure>>,
)
    requires
        registry.follows(config, resolved),
        resolved.len() == config.spec.llm_providers@.len(),
        names_differ(config.spec.llm_providers@),
    ensures
        registry.fallback_provider is Some <==> config.spec.llm_selection.fallback_provider is Some
            && exists|i: int|
            0 <= i < config.spec.llm_providers@.len() && (
            #[trigger] config.spec.llm_providers@[i]).name@
                == config.spec.llm_selection.fallback_provider->0@
                && config.spec.llm_providers@[i].enabled && usable(
                config.spec.llm_providers@[i],
                resolved[i],
            ) && config.spec.llm_providers@[i].models@.len() > 0,
        registry.fallback_provider matches Some(fallback) ==> forall|i: int|
            0 <= i < config.spec.llm_providers@.len() && (
            #[trigger] config.spec.llm_providers@[i]).name@
                == config.spec.llm_selection.fallback_provider->0@ ==> {
                &&& config.spec.llm_providers@[i].models@.len() > 0
                &&& fallback.0@ == config.spec.llm_providers@[i].models@[0].model@
                &&& speaks_for(
                    fallback.1@,
                    config.spec.llm_providers@[i],
                    resolved[i],
                    config.spec.llm_providers@[i].models@[0].model@,
                )
            },
{
    let providers = config.spec.llm_providers@;
    if let Some(name) = config.spec.llm_selection.fallback_provider {
        health_is_checked_with_first_models(providers, resolved, providers.len(), name@);
        lemma_first_named(providers, name@);
        if registry.providers@.contains_key(name@) {
            let i = choose|i: int|
                0 <= i < providers.len() && (#[trigger] providers[i]).name@ == name@
                    && providers[i].enabled && usable(providers[i], resolved[i])
                    && providers[i].models@.len() > 0;
            assert(providers[i].name@ == name@);
            assert(first_named(providers, name@) == Some(i));
        }
    }
}

proof fn lemma_first_named(providers: Seq<LLMProviderConfig>, name: Seq<char>)
    ensures
        match first_named(providers, name) {
            Some(k) => 0 <= k < providers.len() && providers[k].name@ == name,
            None => forall|i: int|
                0 <= i < providers.len() ==> (#[trigger] providers[i]).name@ != name,
        },
    decreases providers.len(),
{
    if providers.len() > 0 && providers[0].name@ != name {
        let rest = providers.drop_first();
        lemma_first_named(rest, name);
        if first_named(rest, name) is None {
            assert forall|i: int| 0 <= i < providers.len() implies (
            #[trigger] providers[i]).name@ != name by {
                if i > 0 {
                    assert(rest[i - 1] == providers[i]);
                }
            }
        }
    }
}

/// An alias overrides the options of a call exactly where it has a value of its
/// own; the call is repeated, and given up, as the configuration says.
pub proof fn prepared_calls_follow_the_configuration(
    registry: ProviderRegistry,
    config: NodeConfigManifest,
    resolved: Seq<Result<String, Failure>>,
    kind: CallKind,
    alias: Seq<char>,
    options: GenerationOptions,
    call: PreparedCall,
)
    requires
        registry.follows(config, resolved),
        registry.prepares(kind, alias, options, call),
    ensures
        registry.alias_map@.contains_key(alias),
        call.adapter@ == registry.alias_map@[alias],
        call.model@ == call.adapter.model@,
        !registry.alias_max_output_tokens@.contains_key(alias) ==> call.options.max_tokens
            == options.max_tokens,
        registry.alias_max_output_tokens@.contains_key(alias) ==> call.options.max_tokens == Some(
            registry.alias_max_output_tokens@[alias],
        ),
        !registry.alias_temperatures@.contains_key(alias) ==> call.options.temperature
            == options.temperature,
        registry.alias_temperatures@.contains_key(alias) ==> call.options.temperature is Some
            && call.options.temperature->0.bits == registry.alias_temperatures@[alias],
        call.plan.kind == kind,
        call.plan.max_retries == config.spec.llm_selection.max_retries,
        call.plan.retry_delay_ms == config.spec.llm_selection.retry_delay_ms,
        call.plan.has_fallback <==> call.fallback is Some,
        call.fallback is Some <==> registry.fallback_provider is Some,
        call.fallback matches Some(fallback) ==> fallback.options == options && fallback.model@
            == (registry.fallback_provider->0).0@ && fallback.adapter@
            == (registry.fallback_provider->0).1@,
        call.budget_secs >= 1,
        config.spec.llm_selection.llm_overall_timeout_secs >= 1 ==> call.budget_secs
            == config.spec.llm_selection.llm_overall_timeout_secs,
        config.spec.llm_selection.llm_overall_timeout_secs == 0 ==> call.budget_secs == 1,
{
}

/// An alias that one model of all providers bears, and that can be served, has
/// what that model configures: its limit of tokens and its temperature, each
/// where the model has one.
pub proof fn overrides_are_the_models_own(
    registry: ProviderRegistry,
    config: NodeConfigManifest,
    resolved: Seq<Result<String, Failure>>,
    alias: Seq<char>,
    i: int,
    m: int,
)
    requires
        registry.follows(config, resolved),
        resolved.len() == config.spec.llm_providers@.len(),
        0 <= i < config.spec.llm_providers@.len(),
        config.spec.llm_providers@[i].enabled,
        usable(config.spec.llm_providers@[i], resolved[i]),
        0 <= m < config.spec.llm_providers@[i].models@.len(),
        config.spec.llm_providers@[i].models@[m].alias@ == alias,
        forall|j: int, k: int|
            0 <= j < config.spec.llm_providers@.len() && 0 <= k
                < config.spec.llm_providers@[j].models@.len() && (
            #[trigger] config.spec.llm_providers@[j].models@[k]).alias@ == alias ==> j == i && k
                == m,
    ensures
        ({
            let model = config.spec.llm_providers@[i].models@[m];
            &&& registry.alias_map@.contains_key(alias)
            &&& registry.alias_map@[alias].model == model.model@
            &&& registry.raw_api_keys@[alias] == config.spec.llm_providers@[i].api_key
            &&& registry.alias_max_output_tokens@.contains_key(alias)
                <==> model.max_output_tokens is Some
            &&& model.max_output_tokens is Some ==> registry.alias_max_output_tokens@[alias]
                == model.max_output_tokens->0
            &&& registry.alias_temperatures@.contains_key(alias) <==> model.temperature is Some
            &&& model.temperature is Some ==> registry.alias_temperatures@[alias]
                == model.temperature->0.bits
        }),
{
    let providers = config.spec.llm_providers@;
    let strategy = config.spec.llm_selection.strategy;
    let n = providers.len();
    let offered = offers(providers, resolved, alias, n);
    let winners = after_providers(strategy, providers, resolved, n);
    offers_are_what_is_configured(providers, resolved, alias, n);
    assert(providers[i].models@[m].alias@ == alias);
    aliases_are_what_is_offered(registry, config, resolved, alias);
    winner_is_pick(strategy, providers, resolved, alias, n);
    lemma_pick_is_offered(strategy, offered);
    let winner = pick(strategy, offered)->0;
    let at = choose|at: int| 0 <= at < offered.len() && offered[at] == winner;
    assert(is_configured(providers, resolved, alias, offered[at]));
    assert(winner.provider == providers[i].name@ && winner.model == providers[i].models@[m].model@);
    let p = last_serving(providers, resolved, alias, winner, n)->0;
    assert(p == i) by {
        let q = choose|q: int|
            0 <= q < providers[p].models@.len() && (#[trigger] providers[p].models@[q]).alias@
                == alias && providers[p].models@[q].model@ == winner.model;
        assert(providers[p].models@[q].alias@ == alias);
    }
    adapters_follow_their_provider(providers[i], resolved[i], winner.model);
    lemma_sole_model_tables(winners, providers, resolved, alias, n, i, m);
}

/// What the tables say of `alias` beside its adapter.
spec fn overrides_of(tables: AliasTables, alias: Seq<char>, model: ModelConfig) -> bool {
    &&& tables.max_output_tokens.contains_key(alias) <==> model.max_output_tokens is Some
    &&& model.max_output_tokens is Some ==> tables.max_output_tokens[alias]
        == model.max_output_tokens->0
    &&& tables.temperatures.contains_key(alias) <==> model.temperature is Some
    &&& model.temperature is Some ==> tables.temperatures[alias] == model.temperature->0.bits
}

spec fn no_overrides(tables: AliasTables, alias: Seq<char>) -> bool {
    !tables.max_output_tokens.contains_key(alias) && !tables.temperatures.contains_key(alias)
}

proof fn lemma_sole_model_in_provider(
    tables: AliasTables,
    winners: Map<Seq<char>, CandidateView>,
    provider: LLMProviderConfig,
    resolved: Result<String, Failure>,
    alias: Seq<char>,
    k: nat,
    m: int,
)
    requires
        k <= provider.models@.len(),
        forall|q: int|
            0 <= q < provider.models@.len() && (#[trigger] provider.models@[q]).alias@ == alias
                ==> q == m,
        0 <= m < provider.models@.len() ==> {
            &&& no_overrides(tables, alias)
            &&& provider.models@[m].alias@ == alias
            &&& winners.contains_key(alias)
            &&& winners[alias].provider == provider.name@
            &&& winners[alias].model == provider.models@[m].model@
            &&& adapter_of(provider, resolved, provider.models@[m].model@) is Some
        },
    ensures
        ({
            let after = with_models(tables, winners, provider, resolved, k);
            if 0 <= m < k {
                overrides_of(after, alias, provider.models@[m])
            } else {
                &&& after.max_output_tokens.contains_key(alias)
                    == tables.max_output_tokens.contains_key(alias)
                &&& after.max_output_tokens[alias] == tables.max_output_tokens[alias]
                &&& after.temperatures.contains_key(alias) == tables.temperatures.contains_key(
                    alias,
                )
                &&& after.temperatures[alias] == tables.temperatures[alias]
            }
        }),
    decreases k,
{
    if k > 0 {
        lemma_sole_model_in_provider(
            tables,
            winners,
            provider,
            resolved,
            alias,
            (k - 1) as nat,
            m,
        );
        let last = provider.models@[k - 1];
        if last.alias@ == alias {
            assert(k - 1 == m);
        }
    }
}

proof fn lemma_sole_model_tables(
    winners: Map<Seq<char>, CandidateView>,
    providers: Seq<LLMProviderConfig>,
    resolved: Seq<Result<String, Failure>>,
    alias: Seq<char>,
    n: nat,
    i: int,
    m: int,
)
    requires
        n <= providers.len(),
        0 <= i < providers.len(),
        providers[i].enabled,
        0 <= m < providers[i].models@.len(),
        providers[i].models@[m].alias@ == alias,
        winners.contains_key(alias),
        winners[alias].provider == providers[i].name@,
        winners[alias].model == providers[i].models@[m].model@,
        adapter_of(providers[i], resolved[i], providers[i].models@[m].model@) is Some,
        forall|j: int, k: int|
            0 <= j < providers.len() && 0 <= k < providers[j].models@.len() && (
            #[trigger] providers[j].models@[k]).alias@ == alias ==> j == i && k == m,
    ensures
        ({
            let after = with_providers(winners, providers, resolved, n);
            if i < n {
                overrides_of(after, alias, providers[i].models@[m])
            } else {
                no_overrides(after, alias)
            }
        }),
    decreases n,
{
    if n > 0 {
        lemma_sole_model_tables(winners, providers, resolved, alias, (n - 1) as nat, i, m);
        let before = with_providers(winners, providers, resolved, (n - 1) as nat);
        let p = providers[n - 1];
        if p.enabled {
            assert forall|q: int|
                0 <= q < p.models@.len() && (#[trigger] p.models@[q]).alias@ == alias implies q
                == (if n - 1 == i {
                m
            } else {
                -1
            }) by {
                assert(providers[n - 1].models@[q].alias@ == alias);
            }
            lemma_sole_model_in_provider(
                before,
                winners,
                p,
                resolved[n - 1],
                alias,
                p.models@.len(),
                if n - 1 == i {
                    m
                } else {
                    -1
                },
            );
        }
    }
}

/// A call begins with its first attempt, unless none is allowed.
pub proof fn calls_begin_with_their_first_attempt(plan: &RetryPlan, step: CallStep)
    requires
        call_ensures(RetryPlan::begin, (plan,), step),
    ensures
        plan.max_retries > 0 ==> step is Attempt && step->Attempt_attempt == 0,
        plan.max_retries == 0 ==> step is Fail && (step->Fail_0 matches LLMError::Provider(message)
            && message@ == "Unknown error"@),
{
}

/// A key that stands in the configuration itself is the user's; one that is
/// taken from the environment, and the lack of one, is the platform's.
pub proof fn keys_belong_to_who_wrote_them(
    registry: &ProviderRegistry,
    alias: &str,
    r: ApiKeySource,
)
    requires
        call_ensures(ProviderRegistry::key_source_for_alias, (registry, alias), r),
    ensures
        !registry.raw_api_keys@.contains_key(alias@) ==> r is Platform,
        registry.raw_api_keys@.contains_key(alias@) && registry.raw_api_keys@[alias@] is None ==> r
            is Platform,
        registry.raw_api_keys@.contains_key(alias@) && registry.raw_api_keys@[alias@] is Some ==> (r
            is Platform <==> "env:"@.is_prefix_of(registry.raw_api_keys@[alias@]->0@)),
        r is User || r is Platform,
{
}

/// The contents of an adapter are what it is made with.
pub proof fn adapters_are_what_they_are_made_with(adapter: Adapter)
    ensures
        adapter@.kind == adapter.kind,
        adapter@.endpoint == adapter.endpoint@,
        adapter@.api_key == adapter.api_key@,
        adapter@.model == adapter.model@,
{
}

/// A call that took too long fails as a fault of the network, which names the
/// budget that it overran.
pub proof fn overruns_name_their_budget(budget_secs: u64, e: LLMError)
    requires
        call_ensures(ProviderRegistry::timed_out, (budget_secs,), e),
    ensures
        e is Network,
        e->Network_0@ == "upstream timeout after "@ + text::decimal_digits(budget_secs as nat)
            + "s"@,
{
}

/// The health of a registry is that of the adapter that its default alias leads
/// to.
pub proof fn health_is_that_of_the_default(
    registry: &ProviderRegistry,
    r: Result<Adapter, LLMError>,
)
    requires
        call_ensures(ProviderRegistry::default_adapter, (registry,), r),
    ensures
        r is Ok <==> registry.alias_map@.contains_key("default"@),
        r is Ok ==> r->Ok_0@ == registry.alias_map@["default"@],
        r is Err ==> (r->Err_0 matches LLMError::Provider(message) && message@
            == "Default model alias not configured"@),
{
}

} // verus!
