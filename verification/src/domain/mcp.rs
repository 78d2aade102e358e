//! Tool calls and the policies on them.

use vstd::prelude::*;

verus! {

/// Why a policy refused a tool call.
#[derive(Debug, PartialEq, Eq)]
pub enum PolicyViolation {
    ToolNotAllowed { tool_name: String },
    ToolExplicitlyDenied { tool_name: String },
    RateLimitExceeded {
        resource_type: String,
        bucket: String,
        limit: u64,
        current: u64,
        retry_after_seconds: u64,
    },
    PathOutsideBoundary { detail: String },
    PathTraversalAttempt { detail: String },
    DomainNotAllowed { detail: String },
    MissingRequiredArgument(String),
    TimeoutExceeded { detail: String },
    CommandNotAllowed { detail: String },
    SubcommandNotAllowed { detail: String },
    ConcurrentExecLimitExceeded { detail: String },
    OutputSizeLimitExceeded { detail: String },
    ExecTimeoutCeilingExceeded { detail: String },
}

impl PolicyViolation {
    /// The name under which violations of this sort are counted.
    pub open spec fn label(self) -> Seq<char> {
        match self {
            PolicyViolation::ToolNotAllowed { .. } => "tool_not_allowed"@,
            PolicyViolation::ToolExplicitlyDenied { .. } => "tool_explicitly_denied"@,
            PolicyViolation::RateLimitExceeded { .. } => "rate_limit_exceeded"@,
            PolicyViolation::PathOutsideBoundary { .. } => "path_outside_boundary"@,
            PolicyViolation::PathTraversalAttempt { .. } => "path_traversal_attempt"@,
            PolicyViolation::DomainNotAllowed { .. } => "domain_not_allowed"@,
            PolicyViolation::MissingRequiredArgument(_) => "missing_required_argument"@,
            PolicyViolation::TimeoutExceeded { .. } => "timeout_exceeded"@,
            PolicyViolation::CommandNotAllowed { .. } => "command_not_allowed"@,
            PolicyViolation::SubcommandNotAllowed { .. } => "subcommand_not_allowed"@,
            PolicyViolation::ConcurrentExecLimitExceeded { .. } => {
                "concurrent_exec_limit_exceeded"@
            },
            PolicyViolation::OutputSizeLimitExceeded { .. } => "output_size_limit_exceeded"@,
            PolicyViolation::ExecTimeoutCeilingExceeded { .. } => {
                "exec_timeout_ceiling_exceeded"@
            },
        }
    }

    /// The name under which violations of this sort are counted.
    pub fn violation_type(&self) -> (r: &'static str)
        ensures
            r@ == self.label(),
    {
        match self {
            PolicyViolation::ToolNotAllowed { .. } => "tool_not_allowed",
            PolicyViolation::ToolExplicitlyDenied { .. } => "tool_explicitly_denied",
            PolicyViolation::RateLimitExceeded { .. } => "rate_limit_exceeded",
            PolicyViolation::PathOutsideBoundary { .. } => "path_outside_boundary",
            PolicyViolation::PathTraversalAttempt { .. } => "path_traversal_attempt",
            PolicyViolation::DomainNotAllowed { .. } => "domain_not_allowed",
            PolicyViolation::MissingRequiredArgument(_) => "missing_required_argument",
            PolicyViolation::TimeoutExceeded { .. } => "timeout_exceeded",
            PolicyViolation::CommandNotAllowed { .. } => "command_not_allowed",
            PolicyViolation::SubcommandNotAllowed { .. } => "subcommand_not_allowed",
            PolicyViolation::ConcurrentExecLimitExceeded { .. } => {
                "concurrent_exec_limit_exceeded"
            },
            PolicyViolation::OutputSizeLimitExceeded { .. } => "output_size_limit_exceeded",
            PolicyViolation::ExecTimeoutCeilingExceeded { .. } => "exec_timeout_ceiling_exceeded",
        }
    }
}

/// Violations of each sort are counted under their own name.
pub proof fn violations_are_counted_under_their_names(v: PolicyViolation)
    ensures
        v is ToolNotAllowed ==> v.label() == "tool_not_allowed"@,
        v is ToolExplicitlyDenied ==> v.label() == "tool_explicitly_denied"@,
        v is RateLimitExceeded ==> v.label() == "rate_limit_exceeded"@,
        v is PathOutsideBoundary ==> v.label() == "path_outside_boundary"@,
        v is PathTraversalAttempt ==> v.label() == "path_traversal_attempt"@,
        v is DomainNotAllowed ==> v.label() == "domain_not_allowed"@,
        v is MissingRequiredArgument ==> v.label() == "missing_required_argument"@,
        v is TimeoutExceeded ==> v.label() == "timeout_exceeded"@,
        v is CommandNotAllowed ==> v.label() == "command_not_allowed"@,
        v is SubcommandNotAllowed ==> v.label() == "subcommand_not_allowed"@,
        v is ConcurrentExecLimitExceeded ==> v.label() == "concurrent_exec_limit_exceeded"@,
        v is OutputSizeLimitExceeded ==> v.label() == "output_size_limit_exceeded"@,
        v is ExecTimeoutCeilingExceeded ==> v.label() == "exec_timeout_ceiling_exceeded"@,
{
}

} // verus!
