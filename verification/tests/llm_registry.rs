use aegis_orchestrator_core::domain::llm::{GenerationOptions, LLMError, Temperature};
use aegis_orchestrator_core::domain::node_config::{
    LLMProviderConfig, LLMSelection, LLMSelectionStrategy, ModelConfig, NodeConfigManifest,
    NodeConfigSpec, TokenCost,
};
use aegis_orchestrator_core::infrastructure::llm::registry::{
    backoff_ms, is_non_retryable, AdapterKind, ApiKeySource, CallKind, CallStep, PreparedCall,
    ProviderRegistry, RetryPlan, MAX_BACKOFF_MS,
};
use aegis_orchestrator_core::support::failure::Failure;

const NO_OPTIONS: GenerationOptions = GenerationOptions { max_tokens: None, temperature: None };

fn model(alias: &str, name: &str, cost: i64) -> ModelConfig {
    ModelConfig {
        alias: alias.to_string(),
        model: name.to_string(),
        capabilities: vec!["chat".to_string()],
        context_window: 8192,
        cost_per_1k_tokens: TokenCost { rank: Some(cost) },
        max_output_tokens: None,
        temperature: None,
    }
}

fn provider(name: &str, kind: &str, local: bool, models: Vec<ModelConfig>) -> LLMProviderConfig {
    LLMProviderConfig {
        name: name.to_string(),
        provider_type: kind.to_string(),
        endpoint: String::new(),
        api_key: None,
        enabled: true,
        local,
        models,
    }
}

fn config(
    strategy: LLMSelectionStrategy,
    llm_providers: Vec<LLMProviderConfig>,
) -> NodeConfigManifest {
    NodeConfigManifest {
        spec: NodeConfigSpec {
            llm_providers,
            llm_selection: LLMSelection {
                strategy,
                fallback_provider: None,
                max_retries: 3,
                retry_delay_ms: 1,
                llm_overall_timeout_secs: 30,
            },
        },
    }
}

fn registry(config: &NodeConfigManifest) -> ProviderRegistry {
    let resolved =
        config.spec.llm_providers.iter().map(|p| Ok(p.api_key.clone().unwrap_or_default())).collect();
    match ProviderRegistry::from_config(config, &resolved) {
        Ok(registry) => registry,
        Err(e) => panic!("{}", e.to_string()),
    }
}

#[test]
fn test_registry_creation() {
    let mut ollama = provider("test-ollama", "ollama", true, vec![model("default", "llama3.2", 0)]);
    ollama.endpoint = "http://localhost:11434".to_string();
    let config = config(LLMSelectionStrategy::PreferLocal, vec![ollama]);
    let registry = registry(&config);
    assert!(registry.has_alias("default"));
    assert_eq!(registry.available_aliases().len(), 1);
}

fn two_providers() -> Vec<LLMProviderConfig> {
    vec![
        provider("cloud", "openai", false, vec![model("default", "gpt", 5)]),
        provider("near", "ollama", true, vec![model("default", "llama", 9)]),
        provider("cheap", "anthropic", false, vec![model("default", "small", 2)]),
    ]
}

#[test]
fn strategies_choose_among_models_of_one_alias() {
    for (strategy, name) in [
        (LLMSelectionStrategy::PreferLocal, "llama"),
        (LLMSelectionStrategy::PreferCloud, "gpt"),
        (LLMSelectionStrategy::CostOptimized, "small"),
    ] {
        let registry = registry(&config(strategy, two_providers()));
        match registry.generate_chat("default", &NO_OPTIONS) {
            Ok(call) => assert_eq!(call.model, name),
            Err(e) => panic!("{e:?}"),
        }
    }
}

#[test]
fn disabled_and_unknown_providers_offer_nothing() {
    let mut off = provider("off", "openai", false, vec![model("a", "x", 1)]);
    off.enabled = false;
    let odd = provider("odd", "telepathy", false, vec![model("b", "y", 1)]);
    let registry = registry(&config(LLMSelectionStrategy::PreferLocal, vec![off, odd]));
    assert!(!registry.has_alias("a"));
    assert!(!registry.has_alias("b"));
    assert!(registry.provider_names().is_empty());
    assert!(matches!(
        registry.default_adapter(),
        Err(LLMError::Provider(m)) if m == "Default model alias not configured"
    ));
}

#[test]
fn adapters_follow_their_configuration() {
    let mut openai = provider("o", "openai", false, vec![model("a", "gpt", 1)]);
    openai.api_key = Some("env:KEY".to_string());
    let adapter =
        ProviderRegistry::create_adapter(&openai, &Ok("resolved".to_string()), "gpt").unwrap();
    assert_eq!(adapter.kind, AdapterKind::OpenAI);
    assert_eq!(adapter.endpoint, "https://api.openai.com/v1");
    assert_eq!(adapter.api_key, "resolved");
    assert_eq!(adapter.model, "gpt");
    let failed = ProviderRegistry::create_adapter(&openai, &Err(Failure::msg("no KEY")), "gpt");
    assert_eq!(failed.unwrap_err().to_string(), "no KEY");
    openai.provider_type = "telepathy".to_string();
    let failed = ProviderRegistry::create_adapter(&openai, &Ok(String::new()), "gpt");
    assert_eq!(failed.unwrap_err().to_string(), "Unsupported provider type: telepathy");
    let gemini = provider("g", "gemini", false, vec![]);
    let adapter = ProviderRegistry::create_adapter(&gemini, &Ok(String::new()), "g").unwrap();
    assert_eq!(adapter.endpoint, "https://generativelanguage.googleapis.com/v1beta");
    let anthropic = provider("c", "anthropic", false, vec![]);
    let adapter = ProviderRegistry::create_adapter(&anthropic, &Ok(String::new()), "c").unwrap();
    assert_eq!(adapter.endpoint, "https://api.anthropic.com/v1");
    let mut compatible = provider("x", "openai-compatible", false, vec![]);
    compatible.endpoint = "http://x".to_string();
    let adapter = ProviderRegistry::create_adapter(&compatible, &Ok(String::new()), "m").unwrap();
    assert_eq!((adapter.kind, adapter.endpoint.as_str()), (AdapterKind::OpenAI, "http://x"));
    let ollama = provider("l", "ollama", true, vec![]);
    let adapter = ProviderRegistry::create_adapter(&ollama, &Ok("k".to_string()), "m").unwrap();
    assert_eq!((adapter.endpoint.as_str(), adapter.api_key.as_str()), ("http://localhost:11434", ""));
}

#[test]
fn literal_keys_are_the_users_own() {
    let mut literal = provider("l", "openai", false, vec![model("mine", "gpt", 1)]);
    literal.api_key = Some("SECRET-REDACTED".to_string());
    let mut from_env = provider("e", "openai", false, vec![model("platform", "gpt", 1)]);
    from_env.api_key = Some("env:OPENAI_API_KEY".to_string());
    let registry = registry(&config(LLMSelectionStrategy::PreferCloud, vec![literal, from_env]));
    assert_eq!(registry.key_source_for_alias("mine"), ApiKeySource::User);
    assert_eq!(registry.key_source_for_alias("platform"), ApiKeySource::Platform);
    assert_eq!(registry.key_source_for_alias("nobody"), ApiKeySource::Platform);
}

#[test]
fn aliases_override_options() {
    let mut tuned = model("default", "gpt", 1);
    tuned.max_output_tokens = Some(512);
    tuned.temperature = Some(Temperature { bits: 0.5f32.to_bits() });
    let list = vec![provider("o", "openai", false, vec![tuned, model("plain", "gpt", 1)])];
    let registry = registry(&config(LLMSelectionStrategy::PreferCloud, list));
    let given = GenerationOptions { max_tokens: Some(7), temperature: None };
    let call = registry.generate_chat("default", &given).unwrap();
    assert_eq!(call.options.max_tokens, Some(512));
    assert_eq!(call.options.temperature.map(|t| f32::from_bits(t.bits)), Some(0.5));
    let call = registry.generate("plain", &given).unwrap();
    assert_eq!(call.options, given);
    assert!(matches!(
        registry.generate("missing", &given),
        Err(LLMError::ModelNotFound(m)) if m == "Model alias 'missing' not found"
    ));
}

#[test]
fn fallback_is_a_configured_provider() {
    let mut config = config(LLMSelectionStrategy::PreferLocal, two_providers());
    config.spec.llm_selection.fallback_provider = Some("cheap".to_string());
    config.spec.llm_providers[1].models[0].max_output_tokens = Some(512);
    let with_fallback = registry(&config);
    let given = GenerationOptions { max_tokens: Some(7), temperature: None };
    for call in [
        with_fallback.generate_chat("default", &given).unwrap(),
        with_fallback.generate("default", &given).unwrap(),
    ] {
        assert!(call.plan.has_fallback);
        assert_eq!((call.model.as_str(), call.options.max_tokens), ("llama", Some(512)));
        let fallback = call.fallback.unwrap();
        assert_eq!(fallback.model, "small");
        assert_eq!(fallback.adapter.kind, AdapterKind::Anthropic);
        assert_eq!(fallback.adapter.model, "small");
        assert_eq!(fallback.options, given);
    }
    config.spec.llm_selection.fallback_provider = Some("nobody".to_string());
    let without = registry(&config);
    let call = without.generate_chat("default", &NO_OPTIONS).unwrap();
    assert!(!call.plan.has_fallback && call.fallback.is_none());
}

/// Runs a call against canned answers and says how often each side was called.
fn run(
    plan: RetryPlan,
    mut answers: Vec<Option<LLMError>>,
    fallback: Option<LLMError>,
) -> (Result<(), LLMError>, usize, usize) {
    let mut calls = 0;
    let mut step = plan.begin();
    loop {
        step = match step {
            CallStep::Attempt { attempt } => {
                calls += 1;
                match answers.remove(0) {
                    None => return (Ok(()), calls, 0),
                    Some(error) => plan.after_error(attempt, error),
                }
            }
            CallStep::Pause { attempt, error, .. } => plan.after_pause(attempt, error),
            CallStep::Fallback => {
                return (
                    match fallback {
                        None => Ok(()),
                        Some(error) => Err(error),
                    },
                    calls,
                    1,
                )
            }
            CallStep::Fail(error) => return (Err(error), calls, 0),
        };
    }
}

fn chat(has_fallback: bool) -> RetryPlan {
    RetryPlan { kind: CallKind::Chat, max_retries: 3, retry_delay_ms: 1, has_fallback }
}

/// A chat call under the default alias, of up to three attempts a millisecond
/// apart.
fn chat_call(fallback: bool, timeout_secs: u64) -> PreparedCall {
    let mut config = config(
        LLMSelectionStrategy::PreferCloud,
        vec![
            provider("primary", "openai", false, vec![model("default", "test-model", 1)]),
            provider("spare", "openai", false, vec![model("other", "test-fallback-model", 1)]),
        ],
    );
    config.spec.llm_selection.llm_overall_timeout_secs = timeout_secs;
    if fallback {
        config.spec.llm_selection.fallback_provider = Some("spare".to_string());
    }
    let registry = registry(&config);
    assert_eq!(
        registry.fallback_provider.as_ref().map(|f| f.0.as_str()),
        if fallback { Some("test-fallback-model") } else { None }
    );
    registry.generate_chat("default", &NO_OPTIONS).unwrap()
}

#[test]
fn auth_error_short_circuits() {
    let answers = vec![Some(LLMError::Authentication("403 forbidden".into()))];
    let (res, primary, fallback) = run(chat_call(true, 30).plan, answers, None);
    assert_eq!(res, Err(LLMError::Authentication("403 forbidden".into())));
    assert_eq!(primary, 1, "primary must be called exactly once");
    assert_eq!(fallback, 0);
    assert!(is_non_retryable(&LLMError::Authentication("403 forbidden".into())));
}

#[test]
fn model_not_found_short_circuits() {
    let answers = vec![Some(LLMError::ModelNotFound("no-such-model".into()))];
    let (res, primary, fallback) = run(chat_call(true, 30).plan, answers, None);
    assert_eq!(res, Err(LLMError::ModelNotFound("no-such-model".into())));
    assert_eq!((primary, fallback), (1, 0));
    assert!(is_non_retryable(&LLMError::ModelNotFound("no-such-model".into())));
}

#[test]
fn invalid_input_short_circuits() {
    let answers = vec![Some(LLMError::InvalidInput("bad arg".into()))];
    let (res, primary, fallback) = run(chat_call(true, 30).plan, answers, None);
    assert_eq!(res, Err(LLMError::InvalidInput("bad arg".into())));
    assert_eq!((primary, fallback), (1, 0));
    assert!(is_non_retryable(&LLMError::InvalidInput("bad arg".into())));
}

#[test]
fn provider_error_retries_then_succeeds() {
    let answers = vec![
        Some(LLMError::Provider("transient".into())),
        Some(LLMError::Provider("transient".into())),
        None,
    ];
    let (res, primary, fallback) = run(chat_call(false, 30).plan, answers, None);
    assert!(res.is_ok(), "expected success after retries: {res:?}");
    assert_eq!((primary, fallback), (3, 0));
}

#[test]
fn network_error_overall_timeout_fires() {
    let call = chat_call(false, 1);
    assert_eq!(call.budget_secs, 1);
    let res = ProviderRegistry::timed_out(call.budget_secs);
    assert!(
        matches!(&res, LLMError::Network(msg) if msg.contains("upstream timeout")),
        "expected upstream timeout, got {res:?}"
    );
}

#[test]
fn fallback_short_circuits_on_auth() {
    // The fallback would succeed if invoked, but must NOT be invoked.
    let answers = vec![Some(LLMError::Authentication("403 forbidden".into()))];
    let (res, primary, fallback) = run(chat_call(true, 30).plan, answers, None);
    assert!(matches!(res, Err(LLMError::Authentication(_))));
    assert_eq!((primary, fallback), (1, 0));
}

#[test]
fn service_unavailable_retries_with_backoff() {
    let answers = vec![
        Some(LLMError::ServiceUnavailable("503 high demand".into())),
        Some(LLMError::ServiceUnavailable("503 high demand".into())),
        None,
    ];
    let (res, primary, fallback) = run(chat_call(false, 30).plan, answers, None);
    assert!(
        res.is_ok(),
        "ServiceUnavailable must retry with backoff and succeed on 3rd attempt: {res:?}"
    );
    assert_eq!(
        (primary, fallback),
        (3, 0),
        "primary must be retried max_retries times, not short-circuited after 1"
    );
}

#[test]
fn service_unavailable_falls_back_after_exhausting_primary_retries() {
    let answers = vec![
        Some(LLMError::ServiceUnavailable("503 high demand".into())),
        Some(LLMError::ServiceUnavailable("503 high demand".into())),
        Some(LLMError::ServiceUnavailable("503 high demand".into())),
    ];
    let (res, primary, fallback) = run(chat_call(true, 30).plan, answers, None);
    assert!(
        res.is_ok(),
        "fallback must serve the request after primary exhausts 503 retries: {res:?}"
    );
    assert_eq!(primary, 3, "primary must be retried max_retries times before falling back");
    assert_eq!(
        fallback, 1,
        "fallback must be invoked exactly once after primary exhausts retries"
    );
}

#[test]
fn service_unavailable_returns_err_when_both_providers_exhausted() {
    let answers = vec![
        Some(LLMError::ServiceUnavailable("503 primary".into())),
        Some(LLMError::ServiceUnavailable("503 primary".into())),
        Some(LLMError::ServiceUnavailable("503 primary".into())),
    ];
    let last = LLMError::ServiceUnavailable("503 fallback".into());
    let (res, primary, fallback) = run(chat_call(true, 30).plan, answers, Some(last));
    assert!(
        matches!(&res, Err(LLMError::ServiceUnavailable(msg)) if msg == "503 fallback"),
        "expected ServiceUnavailable when both providers exhausted, got {res:?}"
    );
    assert_eq!((primary, fallback), (3, 1));
}

#[test]
fn of_equal_costs_the_earliest_wins() {
    let list = vec![
        provider("dear", "openai", false, vec![model("default", "a", 5)]),
        provider("first", "openai", false, vec![model("default", "b", 2)]),
        provider("second", "openai", false, vec![model("default", "c", 2)]),
    ];
    let registry = registry(&config(LLMSelectionStrategy::CostOptimized, list));
    assert_eq!(registry.generate_chat("default", &NO_OPTIONS).unwrap().model, "b");
}

#[test]
fn aliases_take_the_key_of_the_provider_that_won() {
    let mut dear = provider("dear", "openai", false, vec![model("default", "a", 5)]);
    dear.api_key = Some("env:DEAR".to_string());
    let mut cheap = provider("cheap", "anthropic", false, vec![model("default", "b", 2)]);
    cheap.api_key = Some("literal".to_string());
    let registry = registry(&config(LLMSelectionStrategy::CostOptimized, vec![dear, cheap]));
    let call = registry.generate_chat("default", &NO_OPTIONS).unwrap();
    assert_eq!(call.adapter.kind, AdapterKind::Anthropic);
    assert_eq!(call.adapter.api_key, "literal");
    assert_eq!(registry.key_source_for_alias("default"), ApiKeySource::User);
}

#[test]
fn transient_errors_are_retried() {
    for text in ["transient", "503 high demand"] {
        let answers = vec![
            Some(LLMError::Provider(text.into())),
            Some(LLMError::ServiceUnavailable(text.into())),
            None,
        ];
        let (result, calls, fallbacks) = run(chat(false), answers, None);
        assert!(result.is_ok());
        assert_eq!((calls, fallbacks), (3, 0));
    }
}

fn unavailable(n: usize) -> Vec<Option<LLMError>> {
    (0..n).map(|_| Some(LLMError::ServiceUnavailable("503".into()))).collect()
}

#[test]
fn fallback_serves_after_all_attempts() {
    let (result, calls, fallbacks) = run(chat(true), unavailable(3), None);
    assert!(result.is_ok());
    assert_eq!((calls, fallbacks), (3, 1));
    let error = LLMError::ServiceUnavailable("503 fallback".into());
    let (result, calls, fallbacks) = run(chat(true), unavailable(3), Some(error));
    assert_eq!(result, Err(LLMError::ServiceUnavailable("503 fallback".into())));
    assert_eq!((calls, fallbacks), (3, 1));
    let (result, calls, fallbacks) = run(chat(false), unavailable(3), None);
    assert_eq!(result, Err(LLMError::ServiceUnavailable("503".into())));
    assert_eq!((calls, fallbacks), (3, 0));
}

#[test]
fn text_calls_retry_whatever_the_error() {
    let plan = RetryPlan { kind: CallKind::Text, ..chat(false) };
    let answers = vec![Some(LLMError::Authentication("x".into())), None];
    let (result, calls, _) = run(plan, answers, None);
    assert!(result.is_ok());
    assert_eq!(calls, 2);
}

#[test]
fn no_attempts_is_an_error() {
    let plan = RetryPlan { max_retries: 0, ..chat(true) };
    let (result, calls, fallbacks) = run(plan, vec![], None);
    assert_eq!(result, Err(LLMError::Provider("Unknown error".into())));
    assert_eq!((calls, fallbacks), (0, 0));
}

#[test]
fn timeouts_name_their_budget() {
    assert_eq!(
        ProviderRegistry::timed_out(1),
        LLMError::Network("upstream timeout after 1s".into())
    );
    let mut config = config(LLMSelectionStrategy::PreferLocal, two_providers());
    config.spec.llm_selection.llm_overall_timeout_secs = 0;
    let call = registry(&config).generate_chat("default", &NO_OPTIONS).unwrap();
    assert_eq!(call.budget_secs, 1);
}

#[test]
fn pauses_double_up_to_a_bound() {
    assert_eq!(backoff_ms(1000, 0), 1000);
    assert_eq!(backoff_ms(1000, 1), 2000);
    assert_eq!(backoff_ms(1000, 5), 32_000);
    assert_eq!(backoff_ms(1000, 16), 65_536_000);
    assert_eq!(backoff_ms(1000, 17), MAX_BACKOFF_MS);
    assert_eq!(backoff_ms(u64::MAX, 3), MAX_BACKOFF_MS);
    for attempt in 0..20 {
        assert!(backoff_ms(250, attempt) <= backoff_ms(250, attempt + 1));
    }
}
