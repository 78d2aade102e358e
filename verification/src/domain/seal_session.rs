//! Sessions in which agents call tools, and the envelopes of the calls.

use vstd::prelude::*;
use crate::domain::mcp::PolicyViolation;
use crate::domain::shared_kernel::{AgentId, TenantId};

verus! {

/// Why a call was refused.
#[derive(Debug, PartialEq, Eq)]
pub enum SealSessionError {
    SessionInactive(String),
    SignatureVerificationFailed(String),
    PolicyViolation(PolicyViolation),
    MalformedPayload(String),
    ReplayProtectionFailed(String),
    InvalidArguments(String),
    TenantMismatch(String),
    InternalError(String),
}

/// What the middleware reads of a session.
#[derive(Debug)]
pub struct SealSession {
    pub agent_id: AgentId,
    pub user_id: Option<String>,
    pub zaru_tier: Option<String>,
    pub tenant_id: TenantId,
    /// Name of the security context that the session runs in.
    pub security_context_name: String,
}

/// What the middleware reads of an envelope.
#[derive(Debug)]
pub struct Envelope {
    pub tool_name: Option<String>,
    pub arguments: Option<serde_json::Value>,
    pub replay_nonce: String,
}

} // verus!
