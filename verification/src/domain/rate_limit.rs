//! Rate limits.

use vstd::prelude::*;
use crate::domain::shared_kernel::TenantId;
use crate::support::text;

verus! {

/// What a limit counts.
#[derive(Debug, PartialEq, Eq)]
pub enum RateLimitResourceType {
    SealToolCall { tool_pattern: String },
    LlmCall,
    LlmToken,
}

impl RateLimitResourceType {
    /// How errors name the resource.
    pub open spec fn label(self) -> Seq<char> {
        match self {
            RateLimitResourceType::SealToolCall { tool_pattern } => {
                "SealToolCall { tool_pattern: "@ + text::debug_form(tool_pattern@) + " }"@
            },
            RateLimitResourceType::LlmCall => "LlmCall"@,
            RateLimitResourceType::LlmToken => "LlmToken"@,
        }
    }

    /// How errors name the resource.
    pub fn describe(&self) -> (r: String)
        ensures
            r@ == self.label(),
    {
        match self {
            RateLimitResourceType::SealToolCall { tool_pattern } => {
                "SealToolCall { tool_pattern: ".to_owned().concat(
                    text::debug_text(tool_pattern.as_str()).as_str(),
                ).concat(" }")
            },
            RateLimitResourceType::LlmCall => "LlmCall".to_owned(),
            RateLimitResourceType::LlmToken => "LlmToken".to_owned(),
        }
    }
}

/// Whose usage is counted together.
#[derive(Debug, PartialEq, Eq, Hash)]
pub enum RateLimitScope {
    User { tenant_id: TenantId, user_id: String },
    Tenant { tenant_id: TenantId },
}

/// The bucket that a scope counts in.
pub ghost enum BucketKey {
    User { tenant: Seq<char>, user: Seq<char> },
    Tenant { tenant: Seq<char> },
}

impl View for RateLimitScope {
    type V = BucketKey;

    open spec fn view(&self) -> BucketKey {
        match self {
            RateLimitScope::User { tenant_id, user_id } => BucketKey::User {
                tenant: tenant_id@,
                user: user_id@,
            },
            RateLimitScope::Tenant { tenant_id } => BucketKey::Tenant { tenant: tenant_id@ },
        }
    }
}

/// Users of different tenants never count in one bucket, whatever their user
/// identifiers.
pub proof fn buckets_are_per_tenant(a: RateLimitScope, b: RateLimitScope)
    requires
        a matches RateLimitScope::User { tenant_id, user_id } && b matches RateLimitScope::User {
            tenant_id: other_tenant,
            user_id: other_user,
        } && tenant_id@ != other_tenant@,
    ensures
        a@ != b@,
{
}

/// A limit that applies to a call, with the name of the resource that it
/// counts.
#[derive(Debug)]
pub struct RateLimitPolicy {
    pub resource_label: String,
}

/// What a limit says of a call.
#[derive(Debug)]
pub struct RateLimitDecision {
    pub allowed: bool,
    /// The name of the bucket that is used up.
    pub exhausted_bucket: Option<String>,
    /// What one of the buckets still allows.
    pub remaining: Option<u64>,
    pub retry_after_seconds: Option<u64>,
}

/// Two scopes count in one bucket exactly where they are the same tenant as a
/// whole, or the same user of the same tenant; a tenant as a whole never counts
/// with one of its users.
pub proof fn buckets_are_told_apart(a: RateLimitScope, b: RateLimitScope)
    ensures
        a is User && b is User ==> (a@ == b@ <==> a->User_tenant_id@ == b->User_tenant_id@
            && a->user_id@ == b->user_id@),
        a is Tenant && b is Tenant ==> (a@ == b@ <==> a->Tenant_tenant_id@
            == b->Tenant_tenant_id@),
        a is User && b is Tenant ==> a@ != b@,
{
}

/// A resource is named by its sort, and a tool call by its pattern too.
pub proof fn resources_are_named_by_their_sort(r: RateLimitResourceType)
    ensures
        r is LlmCall ==> r.label() == "LlmCall"@,
        r is LlmToken ==> r.label() == "LlmToken"@,
        r matches RateLimitResourceType::SealToolCall { tool_pattern } ==> r.label()
            == "SealToolCall { tool_pattern: "@ + text::debug_form(tool_pattern@) + " }"@,
{
}

} // verus!
