use aegis_orchestrator_core::domain::iam::{IdentityKind, ZaruTier};
use aegis_orchestrator_core::domain::mcp::PolicyViolation;
use aegis_orchestrator_core::domain::rate_limit::{
    RateLimitDecision, RateLimitPolicy, RateLimitResourceType, RateLimitScope,
};
use aegis_orchestrator_core::domain::seal_session::{Envelope, SealSession, SealSessionError};
use aegis_orchestrator_core::domain::shared_kernel::{AgentId, TenantId, Uuid};
use aegis_orchestrator_core::infrastructure::seal::middleware::{
    strip_operator_only_params, FailureMetric, NonceOutcome, SealMiddleware, SealStep,
};
use serde_json::Value;

type Middleware = SealMiddleware<(), (), ()>;

fn json(text: &str) -> Value {
    serde_json::from_str(text).unwrap()
}

fn session(context: &str) -> SealSession {
    SealSession {
        agent_id: AgentId(Uuid { bits: 5 }),
        user_id: Some("user-1".to_string()),
        zaru_tier: None,
        tenant_id: TenantId::new("tenant-a".to_string()).unwrap(),
        security_context_name: context.to_string(),
    }
}

fn envelope(arguments: Option<Value>) -> Envelope {
    Envelope {
        tool_name: Some("tool.run".to_string()),
        arguments,
        replay_nonce: "nonce-1".to_string(),
    }
}

fn forwarded(step: SealStep) -> Value {
    match step {
        SealStep::Forward(args) => args,
        other => panic!("not forwarded: {other:?}"),
    }
}

#[test]
fn strip_operator_only_params_removes_correct_keys() {
    let mut args = json(r#"{"name": "test", "force": true, "version": "1.0.0", "extra": 42}"#);
    strip_operator_only_params(&mut args);
    assert!(args.get("force").is_none());
    assert!(args.get("version").is_none());
    assert_eq!(args.get("name").unwrap(), "test");
    assert_eq!(args.get("extra").unwrap(), 42);
}

#[test]
fn strip_operator_only_params_noop_on_non_object() {
    let mut args = json(r#""just a string""#);
    strip_operator_only_params(&mut args);
    assert_eq!(args, json(r#""just a string""#));
}

#[test]
fn strip_operator_only_params_noop_when_keys_absent() {
    let mut args = json(r#"{"path": "/workspace", "name": "test"}"#);
    let expected = args.clone();
    strip_operator_only_params(&mut args);
    assert_eq!(args, expected);
}

#[test]
fn stripping_twice_is_stripping_once() {
    let mut args = json(r#"{"force": 1, "path": "/workspace"}"#);
    strip_operator_only_params(&mut args);
    let once = args.clone();
    strip_operator_only_params(&mut args);
    assert_eq!(args, once);
}

#[test]
fn audit_4_15_rate_limit_user_scope_is_keyed_by_tenant() {
    let tenant_a = TenantId::new("tenant-a".to_string()).expect("valid slug");
    let tenant_b = TenantId::new("tenant-b".to_string()).expect("valid slug");

    let scope_a = RateLimitScope::User {
        tenant_id: tenant_a.clone(),
        user_id: "shared-user".to_string(),
    };
    let scope_b = RateLimitScope::User {
        tenant_id: tenant_b.clone(),
        user_id: "shared-user".to_string(),
    };

    assert_ne!(
        scope_a, scope_b,
        "user buckets sharing a user_id across tenants MUST NOT collide"
    );

    let composite_a = match &scope_a {
        RateLimitScope::User { tenant_id, user_id } => {
            format!("{}:{}", tenant_id.as_str(), user_id)
        }
        _ => unreachable!(),
    };
    let composite_b = match &scope_b {
        RateLimitScope::User { tenant_id, user_id } => {
            format!("{}:{}", tenant_id.as_str(), user_id)
        }
        _ => unreachable!(),
    };
    assert_ne!(composite_a, composite_b);
    assert!(composite_a.starts_with(tenant_a.as_str()));
    assert!(composite_b.starts_with(tenant_b.as_str()));
}

#[test]
fn audit_4_16_zaru_tier_from_claim_is_case_insensitive() {
    for raw in &["pro", "PRO", "Pro", "pRo", "  pro  "] {
        assert_eq!(
            ZaruTier::from_claim(raw),
            Some(ZaruTier::Pro),
            "tier claim {raw:?} must parse to Pro"
        );
    }
    for raw in &["enterprise", "ENTERPRISE", "Enterprise"] {
        assert_eq!(ZaruTier::from_claim(raw), Some(ZaruTier::Enterprise));
    }
    // Unknown / typo'd tier MUST NOT collapse silently to Free.
    assert!(
        ZaruTier::from_claim("PROO").is_none(),
        "unknown tier 'PROO' must return None"
    );
    assert!(ZaruTier::from_claim("plat1num").is_none());
}

#[test]
fn every_tier_is_named() {
    assert_eq!(ZaruTier::from_claim("Free"), Some(ZaruTier::Free));
    assert_eq!(ZaruTier::from_claim("\tbusiness\n"), Some(ZaruTier::Business));
    assert_eq!(ZaruTier::from_claim(""), None);
}

fn refused(step: SealStep) -> (SealSessionError, Option<FailureMetric>) {
    match step {
        SealStep::Refuse { error, metric } => (error, metric),
        other => panic!("not refused: {other:?}"),
    }
}

fn deploy(arguments: &str) -> Envelope {
    Envelope {
        tool_name: Some("aegis.agent.deploy".to_string()),
        arguments: Some(json(arguments)),
        replay_nonce: Uuid::new_v4().to_string(),
    }
}

#[test]
fn verify_and_unwrap_returns_only_inner_arguments() {
    let middleware = Middleware::new();
    let inner = r#"{"path": "/workspace/file.txt", "flags": ["--check"]}"#;
    let step =
        middleware.verify_and_unwrap(&session("test"), &envelope(Some(json(inner))), Ok(()));
    let args = forwarded(step);
    assert_eq!(args, json(inner));
    assert!(args.get("security_token").is_none());
    assert!(args.get("signature").is_none());
}

#[test]
fn verify_and_unwrap_propagates_signature_failures() {
    let middleware = Middleware::new();
    let (error, metric) = refused(middleware.verify_and_unwrap(
        &session("test"),
        &envelope(Some(json(r#"{"path": "/workspace/file.txt"}"#))),
        Err(SealSessionError::SignatureVerificationFailed("bad signature".to_string())),
    ));
    assert_eq!(
        error,
        SealSessionError::SignatureVerificationFailed("bad signature".to_string())
    );
    assert!(matches!(metric, Some(FailureMetric::SignatureFailure)));
}

#[test]
fn verify_and_unwrap_rejects_missing_arguments_as_malformed_payload() {
    let middleware = Middleware::new();
    let (error, metric) = refused(middleware.verify_and_unwrap(
        &session("test"),
        &envelope(None),
        Err(SealSessionError::MalformedPayload("missing arguments".to_string())),
    ));
    assert_eq!(error, SealSessionError::MalformedPayload("missing arguments".to_string()));
    assert!(metric.is_none());
}

#[test]
fn consumer_tier_strips_force_and_version_from_args() {
    let middleware = Middleware::new();
    let envelope = deploy(r#"{"agent_name": "my-agent", "force": true, "version": "1.2.3"}"#);
    let args = forwarded(middleware.verify_and_unwrap(&session("zaru-free"), &envelope, Ok(())));
    assert!(args.get("force").is_none(), "force must be stripped for consumer tier");
    assert!(args.get("version").is_none(), "version must be stripped for consumer tier");
    assert_eq!(
        args.get("agent_name").unwrap(),
        "my-agent",
        "non-operator params preserved"
    );
}

#[test]
fn consumer_tier_strips_params_across_all_tiers() {
    let middleware = Middleware::new();
    for tier in &["free", "pro", "business", "enterprise"] {
        let args = json(r#"{"path": "/workspace", "version": "2.0.0", "force": false}"#);
        let step = middleware.verify_and_unwrap(
            &session(&format!("zaru-{tier}")),
            &envelope(Some(args)),
            Ok(()),
        );
        let args = forwarded(step);
        assert!(args.get("force").is_none(), "force must be stripped for zaru-{tier}");
        assert!(args.get("version").is_none(), "version must be stripped for zaru-{tier}");
        assert!(args.get("path").is_some(), "path must be preserved for zaru-{tier}");
    }
}

#[test]
fn operator_tier_preserves_force_and_version() {
    let middleware = Middleware::new();
    let envelope = deploy(r#"{"agent_name": "my-agent", "force": true, "version": "1.2.3"}"#);
    let args = forwarded(middleware.verify_and_unwrap(&session("test"), &envelope, Ok(())));
    assert_eq!(args.get("force").unwrap(), true, "force preserved for operator tier");
    assert_eq!(args.get("version").unwrap(), "1.2.3", "version preserved for operator tier");
}

#[test]
fn verify_and_unwrap_propagates_policy_violations() {
    let middleware = Middleware::default();
    let violation = PolicyViolation::ToolExplicitlyDenied { tool_name: "tool.run".to_string() };
    let (error, metric) = refused(middleware.verify_and_unwrap(
        &session("locked-down"),
        &envelope(Some(json(r#"{"path": "/workspace/file.txt"}"#))),
        Err(SealSessionError::PolicyViolation(violation)),
    ));
    assert_eq!(
        error,
        SealSessionError::PolicyViolation(PolicyViolation::ToolExplicitlyDenied {
            tool_name: "tool.run".to_string(),
        })
    );
    assert!(matches!(
        metric,
        Some(FailureMetric::PolicyViolation { violation_type: "tool_explicitly_denied" })
    ));
}

#[test]
fn audit_4_17_replay_within_window_is_rejected() {
    let middleware = Middleware::new().with_replay_protection(());
    let session = session("test");
    let mut seen: Vec<String> = Vec::new();
    let mut call = || {
        let envelope = Envelope {
            tool_name: Some("tool.run".to_string()),
            arguments: Some(json(r#"{"path": "/workspace/file.txt"}"#)),
            replay_nonce: "fixed-signature-bytes".to_string(),
        };
        match middleware.verify_and_unwrap(&session, &envelope, Ok(())) {
            SealStep::RecordNonce { nonce } => {
                let outcome = if seen.contains(&nonce) {
                    NonceOutcome::Replay
                } else {
                    seen.push(nonce);
                    NonceOutcome::Fresh
                };
                middleware.nonce_recorded(&session, &envelope, outcome)
            }
            other => panic!("nonce not recorded: {other:?}"),
        }
    };

    // The first call with a fresh nonce passes.
    assert_eq!(forwarded(call()), json(r#"{"path": "/workspace/file.txt"}"#));

    // The same envelope within the window is rejected.
    let (err, _) = refused(call());
    assert!(
        matches!(err, SealSessionError::ReplayProtectionFailed(_)),
        "expected ReplayProtectionFailed, got {err:?}"
    );
}

#[test]
fn calls_without_arguments_are_malformed() {
    let middleware = Middleware::new();
    match middleware.verify_and_unwrap(&session("test"), &envelope(None), Ok(())) {
        SealStep::Refuse { error, metric } => {
            assert_eq!(
                error,
                SealSessionError::MalformedPayload(
                    "missing arguments after envelope verification".to_string()
                )
            );
            assert!(metric.is_none());
        }
        other => panic!("not refused: {other:?}"),
    }
}

#[test]
fn replays_are_refused_before_limits_are_charged() {
    let middleware =
        Middleware::with_rate_limiting(Some(()), Some(())).with_replay_protection(());
    let session = session("test");
    let envelope = envelope(Some(json("{}")));
    match middleware.verify_and_unwrap(&session, &envelope, Ok(())) {
        SealStep::RecordNonce { nonce } => assert_eq!(nonce, "nonce-1"),
        other => panic!("nonce not recorded: {other:?}"),
    }
    match middleware.nonce_recorded(&session, &envelope, NonceOutcome::Replay) {
        SealStep::Refuse { error, metric } => {
            assert_eq!(
                error,
                SealSessionError::ReplayProtectionFailed(
                    "envelope nonce already seen within freshness window".to_string()
                )
            );
            assert!(matches!(
                metric,
                Some(FailureMetric::PolicyViolation { violation_type: "replay_protection_failed" })
            ));
        }
        other => panic!("not refused: {other:?}"),
    }
    assert!(matches!(
        middleware.nonce_recorded(&session, &envelope, NonceOutcome::Fresh),
        SealStep::ResolvePolicy { .. }
    ));
}

#[test]
fn limits_are_looked_up_for_the_sessions_user_and_tenant() {
    let middleware = Middleware::with_rate_limiting(Some(()), Some(()));
    let mut session = session("test");
    session.zaru_tier = Some("PRO".to_string());
    let envelope = envelope(Some(json("{}")));
    match middleware.verify_and_unwrap(&session, &envelope, Ok(())) {
        SealStep::ResolvePolicy { identity, resource_type } => {
            assert_eq!(identity.sub, "user-1");
            assert_eq!(identity.realm_slug, "tenant-a");
            assert!(identity.email.is_none() && identity.name.is_none());
            let IdentityKind::ConsumerUser { zaru_tier, tenant_id } = identity.identity_kind;
            assert_eq!(zaru_tier, ZaruTier::Pro);
            assert_eq!(tenant_id.as_str(), "tenant-a");
            assert_eq!(
                resource_type,
                RateLimitResourceType::SealToolCall { tool_pattern: "tool.run".to_string() }
            );
        }
        other => panic!("policy not looked up: {other:?}"),
    }
    session.user_id = None;
    match middleware.verify_and_unwrap(&session, &envelope, Ok(())) {
        SealStep::ResolvePolicy { identity, .. } => {
            assert_eq!(identity.sub, "00000000-0000-0000-0000-000000000005")
        }
        other => panic!("policy not looked up: {other:?}"),
    }
}

fn limit_error(step: SealStep) -> (String, String, u64, u64) {
    match step {
        SealStep::Refuse {
            error:
                SealSessionError::PolicyViolation(PolicyViolation::RateLimitExceeded {
                    resource_type,
                    bucket,
                    limit,
                    current,
                    retry_after_seconds,
                }),
            metric:
                Some(FailureMetric::PolicyViolation { violation_type: "rate_limit_exceeded" }),
        } => {
            assert_eq!(current, 0);
            (resource_type, bucket, limit, retry_after_seconds)
        }
        other => panic!("not refused for its limit: {other:?}"),
    }
}

#[test]
fn unknown_tiers_are_refused() {
    let middleware = Middleware::with_rate_limiting(Some(()), Some(()));
    let mut session = session("test");
    session.zaru_tier = Some("PROO".to_string());
    let step = middleware.verify_and_unwrap(&session, &envelope(Some(json("{}"))), Ok(()));
    assert_eq!(
        limit_error(step),
        (
            r#"SealToolCall { tool_pattern: "tool.run" }"#.to_string(),
            "invalid_tier".to_string(),
            0,
            0
        )
    );
}

#[test]
fn limits_are_charged_one_call_at_a_time() {
    let middleware = Middleware::with_rate_limiting(Some(()), Some(()));
    let session = session("test");
    let envelope = envelope(Some(json("{}")));
    let policy = RateLimitPolicy { resource_label: "SealToolCall".to_string() };
    match middleware.policy_resolved(&session, &envelope, Ok(policy)) {
        SealStep::CheckLimit { scope, policy, cost } => {
            assert_eq!(cost, 1);
            assert_eq!(policy.resource_label, "SealToolCall");
            assert_eq!(
                scope,
                RateLimitScope::User {
                    tenant_id: TenantId::new("tenant-a".to_string()).unwrap(),
                    user_id: "user-1".to_string()
                }
            );
        }
        other => panic!("limit not charged: {other:?}"),
    }
    let mut unnamed = envelope;
    unnamed.tool_name = None;
    let step = middleware.policy_resolved(&session, &unnamed, Err("down".to_string()));
    assert_eq!(
        limit_error(step),
        (
            r#"SealToolCall { tool_pattern: "unknown" }"#.to_string(),
            "unknown".to_string(),
            0,
            60
        )
    );
}

#[test]
fn used_up_limits_refuse() {
    let middleware = Middleware::with_rate_limiting(Some(()), Some(()));
    let session = session("test");
    let envelope = envelope(Some(json("{}")));
    let policy = RateLimitPolicy { resource_label: "LlmCall".to_string() };
    let allowed = RateLimitDecision {
        allowed: true,
        exhausted_bucket: None,
        remaining: Some(3),
        retry_after_seconds: None,
    };
    let step = middleware.limit_checked(&session, &envelope, &policy, Ok(allowed));
    assert_eq!(forwarded(step), json("{}"));
    let refused = RateLimitDecision {
        allowed: false,
        exhausted_bucket: Some("Hourly".to_string()),
        remaining: Some(3),
        retry_after_seconds: Some(17),
    };
    let step = middleware.limit_checked(&session, &envelope, &policy, Ok(refused));
    assert_eq!(limit_error(step), ("LlmCall".to_string(), "Hourly".to_string(), 3, 17));
    let bare = RateLimitDecision {
        allowed: false,
        exhausted_bucket: None,
        remaining: None,
        retry_after_seconds: None,
    };
    let step = middleware.limit_checked(&session, &envelope, &policy, Ok(bare));
    assert_eq!(limit_error(step), ("LlmCall".to_string(), String::new(), 0, 60));
    let step = middleware.limit_checked(&session, &envelope, &policy, Err("down".to_string()));
    assert_eq!(limit_error(step), ("LlmCall".to_string(), "unknown".to_string(), 0, 60));
}

#[test]
fn resources_are_named_in_errors() {
    assert_eq!(RateLimitResourceType::LlmCall.describe(), "LlmCall");
    assert_eq!(RateLimitResourceType::LlmToken.describe(), "LlmToken");
    assert_eq!(
        RateLimitResourceType::SealToolCall { tool_pattern: "a\"b".to_string() }.describe(),
        r#"SealToolCall { tool_pattern: "a\"b" }"#
    );
}
