//! The middleware that every tool call passes.
//!
//! [`SealMiddleware`] takes a call whose envelope was evaluated against its
//! session, and decides step by step what becomes of it: its nonce is recorded
//! so that it cannot be replayed, its rate limit is looked up and charged, and
//! its arguments are handed out. Each step names one thing for the caller to
//! do; the caller's answer leads to the next step.

use vstd::prelude::*;
use crate::domain::iam;
use crate::domain::iam::{IdentityKind, UserIdentity, ZaruTier};
use crate::domain::mcp::PolicyViolation;
use crate::domain::rate_limit::{
    RateLimitDecision, RateLimitPolicy, RateLimitResourceType, RateLimitScope,
};
use crate::domain::seal_session::{Envelope, SealSession, SealSessionError};
use crate::domain::shared_kernel;
use crate::support::json;
use crate::support::json::remove_member;
use crate::support::text;
use crate::support::text::{copy_text_or, copy_text_or_empty, starts_with};

verus! {

/// Verifies and unwraps incoming envelopes.
///
/// The type parameters are the handles of its collaborators: the enforcer and
/// the resolver of rate limits, and the store of seen nonces. Rate limits are
/// checked where both of the first two are there, replays where the third is.
pub struct SealMiddleware<E, R, N> {
    pub rate_limit_enforcer: Option<E>,
    pub rate_limit_resolver: Option<R>,
    pub nonce_store: Option<N>,
}

/// Whether a nonce was seen before.
#[derive(Clone, Copy, Debug, PartialEq, Eq, Structural)]
pub enum NonceOutcome {
    Fresh,
    Replay,
}

/// What is counted when a call is refused.
#[derive(Debug)]
pub enum FailureMetric {
    SignatureFailure,
    PolicyViolation { violation_type: &'static str },
}

/// One step of a call through the middleware.
#[derive(Debug)]
pub enum SealStep {
    /// Record the nonce, then go on with [`SealMiddleware::nonce_recorded`].
    RecordNonce { nonce: String },
    /// Look up the policy, then go on with [`SealMiddleware::policy_resolved`].
    ResolvePolicy { identity: UserIdentity, resource_type: RateLimitResourceType },
    /// Charge the limit, then go on with [`SealMiddleware::limit_checked`].
    CheckLimit { scope: RateLimitScope, policy: RateLimitPolicy, cost: u64 },
    /// Forward the call with these arguments.
    Forward(serde_json::Value),
    /// Refuse the call, counting the failure where a metric is named.
    Refuse { error: SealSessionError, metric: Option<FailureMetric> },
}

/// Whether a JSON value is `before` without the members that only operators may
/// set.
pub open spec fn stripped(before: serde_json::Value, after: serde_json::Value) -> bool {
    match json::json_members(before) {
        None => after == before,
        Some(members) => {
            &&& json::json_members(after) == Some(members.remove("force"@).remove("version"@))
            &&& !members.contains_key("force"@) && !members.contains_key("version"@) ==> after
                == before
        },
    }
}

/// Takes out the members that only operators may set, `force` and `version`.
/// A value that is no object stays as it is.
pub fn strip_operator_only_params(args: &mut serde_json::Value)
    ensures
        stripped(*old(args), *final(args)),
{
    let _ = remove_member(args, "force");
    let _ = remove_member(args, "version");
}

/// Stripping takes out nothing but `force` and `version`, leaves neither, and
/// changes nothing more when done again.
pub proof fn stripping_removes_exactly_operator_params(
    before: serde_json::Value,
    after: serde_json::Value,
    again: serde_json::Value,
    key: Seq<char>,
)
    requires
        stripped(before, after),
        stripped(after, again),
        json::json_members(before) is Some,
    ensures
        json::json_members(after) is Some,
        !json::json_members(after)->0.contains_key("force"@),
        !json::json_members(after)->0.contains_key("version"@),
        key != "force"@ && key != "version"@ ==> {
            &&& json::json_members(after)->0.contains_key(key) == json::json_members(
                before,
            )->0.contains_key(key)
            &&& json::json_members(after)->0.contains_key(key) ==> json::json_members(
                after,
            )->0[key] == json::json_members(before)->0[key]
        },
        again == after,
{
}

/// The tier that a session stands for, or nothing where its claim names none. A
/// session without a claim is on the free tier.
pub open spec fn session_tier(session: SealSession) -> Option<ZaruTier> {
    match session.zaru_tier {
        Some(claim) => iam::tier_named(claim@),
        None => Some(ZaruTier::Free),
    }
}

/// The user that a session's calls are charged to: the session's user, or its
/// agent where it has none.
pub open spec fn charged_user(session: SealSession) -> Seq<char> {
    text::text_or(session.user_id, shared_kernel::uuid_text(session.agent_id.0.bits))
}

/// Whether `identity` is who a session's limits are looked up for.
pub open spec fn identifies(session: SealSession, identity: UserIdentity) -> bool {
    &&& session_tier(session) is Some
    &&& identity.sub@ == charged_user(session)
    &&& identity.realm_slug@ == session.tenant_id@
    &&& identity.email is None
    &&& identity.name is None
    &&& identity.identity_kind == (IdentityKind::ConsumerUser {
        zaru_tier: session_tier(session)->0,
        tenant_id: session.tenant_id,
    })
}

/// Whether an error is the refusal of a call for its rate limit.
pub open spec fn limit_refusal(
    error: SealSessionError,
    resource_type: Seq<char>,
    bucket: Seq<char>,
    limit: u64,
    retry_after_seconds: u64,
) -> bool {
    error matches SealSessionError::PolicyViolation(violation) && violation matches
        PolicyViolation::RateLimitExceeded {
        resource_type: r,
        bucket: b,
        limit: l,
        current: c,
        retry_after_seconds: s,
    } && {
        &&& r@ == resource_type
        &&& b@ == bucket
        &&& l == limit
        &&& c == 0
        &&& s == retry_after_seconds
    }
}

/// Whether a refusal is counted as a violation of the given type.
pub open spec fn counted_as(metric: Option<FailureMetric>, violation_type: Seq<char>) -> bool {
    metric matches Some(m) && m matches FailureMetric::PolicyViolation { violation_type: v } && v@
        == violation_type
}

/// The name of the tool that an envelope calls.
pub open spec fn tool_of(envelope: Envelope) -> Seq<char> {
    text::text_or(envelope.tool_name, "unknown"@)
}

/// How errors name the calls of a tool.
pub open spec fn call_label(tool: Seq<char>) -> Seq<char> {
    "SealToolCall { tool_pattern: "@ + text::debug_form(tool) + " }"@
}

/// Whether `step` hands out the arguments of an admitted call: without the
/// operators' parameters where the session runs in a consumer context, whose
/// names begin with `zaru-`; a call without arguments is refused.
pub open spec fn hands_out(session: SealSession, envelope: Envelope, step: SealStep) -> bool {
    match envelope.arguments {
        Some(args) => step matches SealStep::Forward(forwarded) && if "zaru-"@.is_prefix_of(
            session.security_context_name@,
        ) {
            stripped(args, forwarded)
        } else {
            forwarded == args
        },
        None => step matches SealStep::Refuse { error, metric } && {
            &&& metric is None
            &&& error matches SealSessionError::MalformedPayload(message) && message@
                == "missing arguments after envelope verification"@
        },
    }
}

impl<E, R, N> SealMiddleware<E, R, N> {
    /// A middleware that neither limits rates nor guards against replays.
    pub fn new() -> (r: Self)
        ensures
            r.rate_limit_enforcer is None,
            r.rate_limit_resolver is None,
            r.nonce_store is None,
    {
        SealMiddleware { rate_limit_enforcer: None, rate_limit_resolver: None, nonce_store: None }
    }

    /// A middleware with the given collaborators for rate limits.
    pub fn with_rate_limiting(
        rate_limit_enforcer: Option<E>,
        rate_limit_resolver: Option<R>,
    ) -> (r: Self)
        ensures
            r.rate_limit_enforcer == rate_limit_enforcer,
            r.rate_limit_resolver == rate_limit_resolver,
            r.nonce_store is None,
    {
        SealMiddleware { rate_limit_enforcer, rate_limit_resolver, nonce_store: None }
    }

    /// The middleware with a store of seen nonces.
    pub fn with_replay_protection(self, nonce_store: N) -> (r: Self)
        ensures
            r.rate_limit_enforcer == self.rate_limit_enforcer,
            r.rate_limit_resolver == self.rate_limit_resolver,
            r.nonce_store == Some(nonce_store),
    {
        SealMiddleware {
            rate_limit_enforcer: self.rate_limit_enforcer,
            rate_limit_resolver: self.rate_limit_resolver,
            nonce_store: Some(nonce_store),
        }
    }

    /// Whether rate limits are checked.
    pub open spec fn limits_rates(self) -> bool {
        self.rate_limit_enforcer is Some && self.rate_limit_resolver is Some
    }

    /// Whether `step` is where a call goes once it is known to be no replay.
    pub open spec fn after_replay_check(
        self,
        session: SealSession,
        envelope: Envelope,
        step: SealStep,
    ) -> bool {
        if !self.limits_rates() {
            hands_out(session, envelope, step)
        } else if session_tier(session) is None {
            step matches SealStep::Refuse { error, metric } && {
                &&& counted_as(metric, "rate_limit_exceeded"@)
                &&& limit_refusal(error, call_label(tool_of(envelope)), "invalid_tier"@, 0, 0)
            }
        } else {
            step matches SealStep::ResolvePolicy { identity, resource_type } && {
                &&& identifies(session, identity)
                &&& resource_type matches RateLimitResourceType::SealToolCall { tool_pattern }
                    && tool_pattern@ == tool_of(envelope)
            }
        }
    }

    /// Whether `step` is the first step of a call whose envelope was evaluated
    /// against its session with the given result.
    pub open spec fn begins(
        self,
        session: SealSession,
        envelope: Envelope,
        evaluated: Result<(), SealSessionError>,
        step: SealStep,
    ) -> bool {
        match evaluated {
            Err(e) => step matches SealStep::Refuse { error, metric } && {
                &&& error == e
                &&& match e {
                    SealSessionError::SignatureVerificationFailed(_) => metric
                        == Some(FailureMetric::SignatureFailure),
                    SealSessionError::PolicyViolation(violation) => counted_as(
                        metric,
                        violation.label(),
                    ),
                    _ => metric is None,
                }
            },
            Ok(_) => if self.nonce_store is Some {
                step matches SealStep::RecordNonce { nonce } && nonce == envelope.replay_nonce
            } else {
                self.after_replay_check(session, envelope, step)
            },
        }
    }

    /// Verifies an envelope and unwraps its call: the first step, given what
    /// the session said of the envelope.
    ///
    /// Replays are looked for before rate limits, so that a replay does not use
    /// up the quota of the caller that it imitates.
    pub fn verify_and_unwrap(
        &self,
        session: &SealSession,
        envelope: &Envelope,
        evaluated: Result<(), SealSessionError>,
    ) -> (step: SealStep)
        ensures
            self.begins(*session, *envelope, evaluated, step),
    {
        match evaluated {
            Err(error) => {
                let metric = match &error {
                    SealSessionError::SignatureVerificationFailed(_) => Some(
                        FailureMetric::SignatureFailure,
                    ),
                    SealSessionError::PolicyViolation(violation) => Some(
                        FailureMetric::PolicyViolation {
                            violation_type: violation.violation_type(),
                        },
                    ),
                    _ => None,
                };
                SealStep::Refuse { error, metric }
            },
            Ok(()) => if self.nonce_store.is_some() {
                SealStep::RecordNonce { nonce: envelope.replay_nonce.clone() }
            } else {
                self.check_rate_limit(session, envelope)
            },
        }
    }

    /// The step that follows once the nonce was recorded.
    pub fn nonce_recorded(
        &self,
        session: &SealSession,
        envelope: &Envelope,
        outcome: NonceOutcome,
    ) -> (step: SealStep)
        ensures
            outcome == NonceOutcome::Fresh ==> self.after_replay_check(*session, *envelope, step),
            outcome == NonceOutcome::Replay ==> (step matches SealStep::Refuse { error, metric } && {
                &&& counted_as(metric, "replay_protection_failed"@)
                &&& error matches SealSessionError::ReplayProtectionFailed(message) && message@
                    == "envelope nonce already seen within freshness window"@
            }),
    {
        match outcome {
            NonceOutcome::Fresh => self.check_rate_limit(session, envelope),
            NonceOutcome::Replay => SealStep::Refuse {
                error: SealSessionError::ReplayProtectionFailed(
                    "envelope nonce already seen within freshness window".to_owned(),
                ),
                metric: Some(
                    FailureMetric::PolicyViolation { violation_type: "replay_protection_failed" },
                ),
            },
        }
    }

    /// Starts the check of the rate limit, where limits are checked.
    fn check_rate_limit(&self, session: &SealSession, envelope: &Envelope) -> (step: SealStep)
        ensures
            self.after_replay_check(*session, *envelope, step),
    {
        if !(self.rate_limit_enforcer.is_some() && self.rate_limit_resolver.is_some()) {
            return Self::hand_out(session, envelope);
        }
        let resource_type = RateLimitResourceType::SealToolCall {
            tool_pattern: copy_text_or(&envelope.tool_name, "unknown"),
        };
        let tier = match &session.zaru_tier {
            Some(claim) => match ZaruTier::from_claim(claim.as_str()) {
                Some(tier) => tier,
                None => {
                    return Self::refuse_for_limit(
                        resource_type.describe(),
                        "invalid_tier".to_owned(),
                        0,
                        0,
                    );
                },
            },
            None => ZaruTier::Free,
        };
        let identity = UserIdentity {
            sub: Self::user_of(session),
            realm_slug: session.tenant_id.as_str().to_owned(),
            email: None,
            name: None,
            identity_kind: IdentityKind::ConsumerUser {
                zaru_tier: tier,
                tenant_id: session.tenant_id.copy(),
            },
        };
        SealStep::ResolvePolicy { identity, resource_type }
    }

    /// The step that follows once the policy was looked up. Where the lookup
    /// failed the call is refused.
    pub fn policy_resolved(
        &self,
        session: &SealSession,
        envelope: &Envelope,
        resolved: Result<RateLimitPolicy, String>,
    ) -> (step: SealStep)
        ensures
            match resolved {
                Ok(found) => step matches SealStep::CheckLimit { scope, policy, cost } && {
                    &&& policy == found
                    &&& cost == 1
                    &&& scope matches RateLimitScope::User { tenant_id, user_id } && tenant_id
                        == session.tenant_id && user_id@ == charged_user(*session)
                },
                Err(_) => step matches SealStep::Refuse { error, metric } && {
                    &&& counted_as(metric, "rate_limit_exceeded"@)
                    &&& limit_refusal(error, call_label(tool_of(*envelope)), "unknown"@, 0, 60)
                },
            },
    {
        match resolved {
            Ok(policy) => SealStep::CheckLimit {
                scope: RateLimitScope::User {
                    tenant_id: session.tenant_id.copy(),
                    user_id: Self::user_of(session),
                },
                policy,
                cost: 1,
            },
            Err(_) => {
                let resource_type = RateLimitResourceType::SealToolCall {
                    tool_pattern: copy_text_or(&envelope.tool_name, "unknown"),
                };
                Self::refuse_for_limit(resource_type.describe(), "unknown".to_owned(), 0, 60)
            },
        }
    }

    /// The step that follows once the limit was charged.
    pub fn limit_checked(
        &self,
        session: &SealSession,
        envelope: &Envelope,
        policy: &RateLimitPolicy,
        checked: Result<RateLimitDecision, String>,
    ) -> (step: SealStep)
        ensures
            match checked {
                Ok(decision) => if decision.allowed {
                    hands_out(*session, *envelope, step)
                } else {
                    step matches SealStep::Refuse { error, metric } && {
                        &&& counted_as(metric, "rate_limit_exceeded"@)
                        &&& limit_refusal(
                            error,
                            policy.resource_label@,
                            text::text_or_empty(decision.exhausted_bucket),
                            if decision.remaining is Some { decision.remaining->0 } else { 0 },
                            if decision.retry_after_seconds is Some {
                                decision.retry_after_seconds->0
                            } else {
                                60
                            },
                        )
                    }
                },
                Err(_) => step matches SealStep::Refuse { error, metric } && {
                    &&& counted_as(metric, "rate_limit_exceeded"@)
                    &&& limit_refusal(error, policy.resource_label@, "unknown"@, 0, 60)
                },
            },
    {
        match checked {
            Ok(decision) => {
                if decision.allowed {
                    return Self::hand_out(session, envelope);
                }
                let limit: u64 = match decision.remaining {
                    Some(n) => n,
                    None => 0,
                };
                let retry: u64 = match decision.retry_after_seconds {
                    Some(n) => n,
                    None => 60,
                };
                Self::refuse_for_limit(
                    policy.resource_label.clone(),
                    copy_text_or_empty(&decision.exhausted_bucket),
                    limit,
                    retry,
                )
            },
            Err(_) => Self::refuse_for_limit(
                policy.resource_label.clone(),
                "unknown".to_owned(),
                0,
                60,
            ),
        }
    }

    fn user_of(session: &SealSession) -> (r: String)
        ensures
            r@ == charged_user(*session),
    {
        match &session.user_id {
            Some(user) => user.clone(),
            None => session.agent_id.0.to_string(),
        }
    }

    fn refuse_for_limit(
        resource_type: String,
        bucket: String,
        limit: u64,
        retry_after_seconds: u64,
    ) -> (step: SealStep)
        ensures
            step matches SealStep::Refuse { error, metric } && {
                &&& counted_as(metric, "rate_limit_exceeded"@)
                &&& limit_refusal(error, resource_type@, bucket@, limit, retry_after_seconds)
            },
    {
        SealStep::Refuse {
            error: SealSessionError::PolicyViolation(
                PolicyViolation::RateLimitExceeded {
                    resource_type,
                    bucket,
                    limit,
                    current: 0,
                    retry_after_seconds,
                },
            ),
            metric: Some(
                FailureMetric::PolicyViolation { violation_type: "rate_limit_exceeded" },
            ),
        }
    }

    fn hand_out(session: &SealSession, envelope: &Envelope) -> (step: SealStep)
        ensures
            hands_out(*session, *envelope, step),
    {
        match &envelope.arguments {
            Some(given) => {
                let mut args = given.clone();
                if starts_with(session.security_context_name.as_str(), "zaru-") {
                    strip_operator_only_params(&mut args);
                }
                SealStep::Forward(args)
            },
            None => SealStep::Refuse {
                error: SealSessionError::MalformedPayload(
                    "missing arguments after envelope verification".to_owned(),
                ),
                metric: None,
            },
        }
    }
}

impl<E, R, N> Default for SealMiddleware<E, R, N> {
    fn default() -> (r: Self)
        ensures
            r.rate_limit_enforcer is None,
            r.rate_limit_resolver is None,
            r.nonce_store is None,
    {
        SealMiddleware::new()
    }
}

/// A call whose envelope was refused goes no further: its error is the answer,
/// and nothing is recorded or charged.
pub proof fn refused_envelopes_go_no_further<E, R, N>(
    middleware: SealMiddleware<E, R, N>,
    session: SealSession,
    envelope: Envelope,
    error: SealSessionError,
    step: SealStep,
)
    requires
        middleware.begins(session, envelope, Err(error), step),
    ensures
        step is Refuse,
        step->error == error,
{
}

/// With a store of nonces no call is charged or forwarded before its nonce was
/// recorded.
pub proof fn nonces_come_first<E, R, N>(
    middleware: SealMiddleware<E, R, N>,
    session: SealSession,
    envelope: Envelope,
    step: SealStep,
)
    requires
        middleware.nonce_store is Some,
        middleware.begins(session, envelope, Ok(()), step),
    ensures
        step == (SealStep::RecordNonce { nonce: envelope.replay_nonce }),
{
}

/// In a consumer context no forwarded object has a `force` or a `version`
/// member.
pub proof fn consumers_never_forward_operator_params(
    session: SealSession,
    envelope: Envelope,
    args: serde_json::Value,
)
    requires
        hands_out(session, envelope, SealStep::Forward(args)),
        "zaru-"@.is_prefix_of(session.security_context_name@),
    ensures
        json::json_members(args) matches Some(members) ==> !members.contains_key("force"@)
            && !members.contains_key("version"@),
{
}

/// Whether a step refuses a call for its rate limit, naming the resource and the
/// bucket, with what is left and when to come again.
pub open spec fn refuses_for_limit(
    step: SealStep,
    resource: Seq<char>,
    bucket: Seq<char>,
    limit: u64,
    retry_after: u64,
) -> bool {
    &&& step is Refuse
    &&& step->metric matches Some(FailureMetric::PolicyViolation { violation_type })
        && violation_type@ == "rate_limit_exceeded"@
    &&& step->error matches SealSessionError::PolicyViolation(
        PolicyViolation::RateLimitExceeded {
            resource_type,
            bucket: named,
            limit: left,
            current,
            retry_after_seconds,
        },
    ) && resource_type@ == resource && named@ == bucket && left == limit && current == 0
        && retry_after_seconds == retry_after
}

/// The name under which a limit knows the calls of an envelope's tool.
pub open spec fn resource_of(envelope: Envelope) -> Seq<char> {
    "SealToolCall { tool_pattern: "@ + text::debug_form(
        match envelope.tool_name {
            Some(name) => name@,
            None => "unknown"@,
        },
    ) + " }"@
}

/// Where rate limits are checked, a call that is no replay is looked up for the
/// session's own user, tenant and tier: the tier that its claim spells, the free
/// one without a claim. A claim that spells no tier's name is refused.
pub proof fn limits_are_those_of_the_session<E, R, N>(
    middleware: SealMiddleware<E, R, N>,
    session: SealSession,
    envelope: Envelope,
    step: SealStep,
)
    requires
        middleware.rate_limit_enforcer is Some,
        middleware.rate_limit_resolver is Some,
        middleware.after_replay_check(session, envelope, step),
    ensures
        session.zaru_tier is None ==> step is ResolvePolicy,
        session.zaru_tier matches Some(claim) ==> {
            let tiered = iam::spells(claim@, "free"@) || iam::spells(claim@, "pro"@) || iam::spells(
                claim@,
                "business"@,
            ) || iam::spells(claim@, "enterprise"@);
            &&& tiered ==> step is ResolvePolicy
            &&& !tiered ==> refuses_for_limit(step, resource_of(envelope), "invalid_tier"@, 0, 0)
        },
        step matches SealStep::ResolvePolicy { identity, resource_type } ==> {
            &&& session.user_id is Some ==> identity.sub@ == session.user_id->0@
            &&& session.user_id is None ==> identity.sub@ == shared_kernel::uuid_text(
                session.agent_id.0.bits,
            )
            &&& identity.realm_slug@ == session.tenant_id@
            &&& identity.email is None && identity.name is None
            &&& identity.identity_kind matches IdentityKind::ConsumerUser { zaru_tier, tenant_id }
                && {
                &&& tenant_id@ == session.tenant_id@
                &&& session.zaru_tier is None ==> zaru_tier is Free
                &&& session.zaru_tier is Some ==> {
                    &&& zaru_tier is Free <==> iam::spells(session.zaru_tier->0@, "free"@)
                    &&& zaru_tier is Pro <==> iam::spells(session.zaru_tier->0@, "pro"@)
                    &&& zaru_tier is Business <==> iam::spells(session.zaru_tier->0@, "business"@)
                    &&& zaru_tier is Enterprise <==> iam::spells(
                        session.zaru_tier->0@,
                        "enterprise"@,
                    )
                }
            }
            &&& resource_type matches RateLimitResourceType::SealToolCall { tool_pattern }
                && tool_pattern@ == (match envelope.tool_name {
                Some(name) => name@,
                None => "unknown"@,
            })
        },
{
    if let Some(claim) = session.zaru_tier {
        iam::tier_is_the_one_spelled(claim@);
    }
}

/// Where either collaborator for rate limits is missing, a call that is no
/// replay is admitted at once.
pub proof fn without_limits_calls_are_admitted<E, R, N>(
    middleware: SealMiddleware<E, R, N>,
    session: SealSession,
    envelope: Envelope,
    step: SealStep,
)
    requires
        middleware.rate_limit_enforcer is None || middleware.rate_limit_resolver is None,
        middleware.after_replay_check(session, envelope, step),
    ensures
        hands_out(session, envelope, step),
{
}

/// Without a store of nonces an envelope in order goes straight on to the rate
/// limits; with one its own nonce is recorded first.
pub proof fn envelopes_in_order_go_on<E, R, N>(
    middleware: SealMiddleware<E, R, N>,
    session: SealSession,
    envelope: Envelope,
    step: SealStep,
)
    requires
        middleware.begins(session, envelope, Ok(()), step),
    ensures
        step is RecordNonce <==> middleware.nonce_store is Some,
        step matches SealStep::RecordNonce { nonce } ==> nonce@ == envelope.replay_nonce@,
        middleware.nonce_store is None ==> middleware.after_replay_check(session, envelope, step),
{
}

/// An admitted call is forwarded exactly where it has arguments. What is
/// forwarded are these arguments; in a context whose name begins with `zaru-`
/// an object loses its members `force` and `version`, and no other, and keeps
/// the values of the rest.
pub proof fn admitted_calls_are_forwarded(
    session: SealSession,
    envelope: Envelope,
    step: SealStep,
    key: Seq<char>,
)
    requires
        hands_out(session, envelope, step),
    ensures
        step is Forward <==> envelope.arguments is Some,
        step is Refuse <==> envelope.arguments is None,
        step is Refuse ==> step->metric is None && (step->error
            matches SealSessionError::MalformedPayload(message) && message@
            == "missing arguments after envelope verification"@),
        step matches SealStep::Forward(args) ==> {
            let given = envelope.arguments->0;
            let name = session.security_context_name@;
            let consumer = name.len() >= 5 && name[0] == 'z' && name[1] == 'a' && name[2] == 'r'
                && name[3] == 'u' && name[4] == '-';
            &&& !consumer ==> args == given
            &&& json::json_members(given) is None ==> args == given
            &&& consumer && json::json_members(given) is Some ==> {
                let before = json::json_members(given)->0;
                &&& json::json_members(args) is Some
                &&& json::json_members(args)->0.contains_key(key) <==> before.contains_key(key)
                    && key != seq!['f', 'o', 'r', 'c', 'e'] && key != seq![
                    'v',
                    'e',
                    'r',
                    's',
                    'i',
                    'o',
                    'n',
                ]
                &&& json::json_members(args)->0.contains_key(key) ==> json::json_members(
                    args,
                )->0[key] == before[key]
            }
        },
{
    reveal_strlit("zaru-");
    reveal_strlit("force");
    reveal_strlit("version");
    assert("force"@ =~= seq!['f', 'o', 'r', 'c', 'e']);
    assert("version"@ =~= seq!['v', 'e', 'r', 's', 'i', 'o', 'n']);
    let name = session.security_context_name@;
    let prefix = "zaru-"@;
    assert(prefix.is_prefix_of(name) <==> name.len() >= 5 && name[0] == 'z' && name[1] == 'a'
        && name[2] == 'r' && name[3] == 'u' && name[4] == '-') by {
        if name.len() >= 5 {
            let head = name.subrange(0, 5);
            assert(forall|i: int| 0 <= i < 5 ==> #[trigger] head[i] == name[i]);
            if name[0] == 'z' && name[1] == 'a' && name[2] == 'r' && name[3] == 'u' && name[4]
                == '-' {
                assert(head =~= prefix);
            }
            if prefix.is_prefix_of(name) {
                assert(head =~= prefix);
                assert(head[0] == prefix[0] && head[1] == prefix[1] && head[2] == prefix[2]
                    && head[3] == prefix[3] && head[4] == prefix[4]);
            }
        }
    }
}

/// An envelope that was refused is answered with the very error, and counted by
/// what it is: a bad signature as such, a violation under the name of its sort,
/// anything else not at all.
pub proof fn refusals_are_counted_by_their_sort<E, R, N>(
    middleware: SealMiddleware<E, R, N>,
    session: SealSession,
    envelope: Envelope,
    error: SealSessionError,
    step: SealStep,
)
    requires
        middleware.begins(session, envelope, Err(error), step),
    ensures
        step is Refuse,
        step->error == error,
        step->metric is None <==> !(error is SignatureVerificationFailed) && !(
        error is PolicyViolation),
        step->metric == Some(FailureMetric::SignatureFailure) <==> error
            is SignatureVerificationFailed,
        error matches SealSessionError::PolicyViolation(violation) ==> step->metric matches Some(
            FailureMetric::PolicyViolation { violation_type },
        ) && {
            &&& violation is ToolNotAllowed ==> violation_type@ == "tool_not_allowed"@
            &&& violation is ToolExplicitlyDenied ==> violation_type@ == "tool_explicitly_denied"@
            &&& violation is RateLimitExceeded ==> violation_type@ == "rate_limit_exceeded"@
            &&& violation is PathOutsideBoundary ==> violation_type@ == "path_outside_boundary"@
            &&& violation is PathTraversalAttempt ==> violation_type@ == "path_traversal_attempt"@
            &&& violation is DomainNotAllowed ==> violation_type@ == "domain_not_allowed"@
            &&& violation is MissingRequiredArgument ==> violation_type@
                == "missing_required_argument"@
            &&& violation is TimeoutExceeded ==> violation_type@ == "timeout_exceeded"@
            &&& violation is CommandNotAllowed ==> violation_type@ == "command_not_allowed"@
            &&& violation is SubcommandNotAllowed ==> violation_type@ == "subcommand_not_allowed"@
            &&& violation is ConcurrentExecLimitExceeded ==> violation_type@
                == "concurrent_exec_limit_exceeded"@
            &&& violation is OutputSizeLimitExceeded ==> violation_type@
                == "output_size_limit_exceeded"@
            &&& violation is ExecTimeoutCeilingExceeded ==> violation_type@
                == "exec_timeout_ceiling_exceeded"@
        },
{
}

/// A nonce that was seen before is refused as a replay and counted as one; a
/// fresh one goes on to the rate limits.
pub proof fn replays_are_refused<E, R, N>(
    middleware: &SealMiddleware<E, R, N>,
    session: &SealSession,
    envelope: &Envelope,
    outcome: NonceOutcome,
    step: SealStep,
)
    requires
        call_ensures(
            SealMiddleware::<E, R, N>::nonce_recorded,
            (middleware, session, envelope, outcome),
            step,
        ),
    ensures
        outcome is Replay ==> step is Refuse && (step->error
            matches SealSessionError::ReplayProtectionFailed(message) && message@
            == "envelope nonce already seen within freshness window"@) && (step->metric matches Some(
            FailureMetric::PolicyViolation { violation_type },
        ) && violation_type@ == "replay_protection_failed"@),
        outcome is Fresh ==> middleware.after_replay_check(*session, *envelope, step),
{
}

/// A limit that was found is charged once, to the session's own user of its own
/// tenant, or to its agent where no user stands behind it; a limit that could
/// not be found refuses the call for a minute.
pub proof fn limits_are_charged_to_the_caller<E, R, N>(
    middleware: &SealMiddleware<E, R, N>,
    session: &SealSession,
    envelope: &Envelope,
    resolved: Result<RateLimitPolicy, String>,
    step: SealStep,
)
    requires
        call_ensures(
            SealMiddleware::<E, R, N>::policy_resolved,
            (middleware, session, envelope, resolved),
            step,
        ),
    ensures
        resolved is Ok ==> (step matches SealStep::CheckLimit { scope, policy, cost } && policy
            == resolved->Ok_0 && cost == 1 && (scope matches RateLimitScope::User {
            tenant_id,
            user_id,
        } && tenant_id@ == session.tenant_id@ && (session.user_id is Some ==> user_id@
            == session.user_id->0@) && (session.user_id is None ==> user_id@
            == shared_kernel::uuid_text(session.agent_id.0.bits)))),
        resolved is Err ==> refuses_for_limit(step, resource_of(*envelope), "unknown"@, 0, 60),
{
}

/// A call that the limit allows goes on to be forwarded; one that it does not
/// allow is refused with the bucket, what is left and when to try again, as far
/// as the limit tells them; a limit that could not be checked refuses too.
pub proof fn decisions_admit_or_refuse<E, R, N>(
    middleware: &SealMiddleware<E, R, N>,
    session: &SealSession,
    envelope: &Envelope,
    policy: &RateLimitPolicy,
    checked: Result<RateLimitDecision, String>,
    step: SealStep,
)
    requires
        call_ensures(
            SealMiddleware::<E, R, N>::limit_checked,
            (middleware, session, envelope, policy, checked),
            step,
        ),
    ensures
        checked is Ok && checked->Ok_0.allowed ==> (step is Forward <==> envelope.arguments is Some)
            && hands_out(*session, *envelope, step),
        checked is Ok && !checked->Ok_0.allowed ==> refuses_for_limit(
            step,
            policy.resource_label@,
            if checked->Ok_0.exhausted_bucket is Some {
                checked->Ok_0.exhausted_bucket->0@
            } else {
                Seq::empty()
            },
            if checked->Ok_0.remaining is Some {
                checked->Ok_0.remaining->0
            } else {
                0
            },
            if checked->Ok_0.retry_after_seconds is Some {
                checked->Ok_0.retry_after_seconds->0
            } else {
                60
            },
        ),
        checked is Err ==> refuses_for_limit(step, policy.resource_label@, "unknown"@, 0, 60),
{
    if checked is Ok && checked->Ok_0.allowed {
        admitted_calls_are_forwarded(*session, *envelope, step, Seq::empty());
    }
}

} // verus!
