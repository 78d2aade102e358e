//! Domain events.

use vstd::prelude::*;
use crate::domain::execution::CodeDiff;
use crate::domain::shared_kernel::{AgentId, ExecutionId, TenantId, VolumeId, WorkflowId};
use crate::domain::workflow::ExecutionLanguage;
use crate::support::clock::Timestamp;
use crate::support::stored::Stored;

verus! {

/// A similarity score, as the bits of its single-precision number.
#[derive(Clone, Copy, Debug, PartialEq, Eq, Hash, Structural)]
pub struct SimilarityScore {
    pub bits: u32,
}

/// How well a pattern did before, by the bits of a floating-point number.
#[derive(Clone, Copy, Debug, PartialEq, Eq, Structural)]
pub struct SuccessScore {
    pub bits: u64,
}

/// What happened to a workflow or to one of its executions.
#[derive(Debug)]
pub enum WorkflowEvent {
    WorkflowRegistered { workflow_id: WorkflowId },
    WorkflowScopeChanged { workflow_id: WorkflowId },
    WorkflowRemoved { workflow_id: WorkflowId },
    WorkflowExecutionStarted {
        execution_id: ExecutionId,
        workflow_id: WorkflowId,
        started_at: Timestamp,
    },
    WorkflowStateEntered { execution_id: ExecutionId, state_name: String, entered_at: Timestamp },
    WorkflowStateExited {
        execution_id: ExecutionId,
        state_name: String,
        output: serde_json::Value,
        exited_at: Timestamp,
    },
    WorkflowIterationStarted {
        execution_id: ExecutionId,
        iteration_number: u8,
        started_at: Timestamp,
    },
    WorkflowIterationCompleted {
        execution_id: ExecutionId,
        iteration_number: u8,
        output: serde_json::Value,
        completed_at: Timestamp,
    },
    WorkflowIterationFailed {
        execution_id: ExecutionId,
        iteration_number: u8,
        error: String,
        failed_at: Timestamp,
    },
    WorkflowExecutionCompleted {
        execution_id: ExecutionId,
        final_blackboard: serde_json::Value,
        artifacts: Option<serde_json::Value>,
        completed_at: Timestamp,
    },
    WorkflowExecutionFailed { execution_id: ExecutionId, reason: String, failed_at: Timestamp },
    WorkflowExecutionCancelled { execution_id: ExecutionId, cancelled_at: Timestamp },
    SubworkflowTriggered {
        parent_execution_id: ExecutionId,
        child_execution_id: ExecutionId,
        child_workflow_id: WorkflowId,
        mode: String,
        parent_state_name: String,
        triggered_at: Timestamp,
    },
    SubworkflowCompleted {
        parent_execution_id: ExecutionId,
        child_execution_id: ExecutionId,
        result_key: String,
        completed_at: Timestamp,
    },
    SubworkflowFailed {
        parent_execution_id: ExecutionId,
        child_execution_id: ExecutionId,
        reason: String,
        failed_at: Timestamp,
    },
    IntentExecutionPipelineStarted {
        pipeline_execution_id: ExecutionId,
        workflow_execution_id: ExecutionId,
        intent: String,
        language: ExecutionLanguage,
        workspace_volume_id: VolumeId,
        started_at: Timestamp,
    },
    IntentExecutionPipelineCompleted {
        pipeline_execution_id: ExecutionId,
        workflow_execution_id: ExecutionId,
        tenant_id: TenantId,
        final_result: String,
        duration_ms: u64,
        reused_existing_agent: bool,
        agent_similarity_score: Option<SimilarityScore>,
        completed_at: Timestamp,
    },
    IntentExecutionPipelineFailed {
        pipeline_execution_id: ExecutionId,
        workflow_execution_id: ExecutionId,
        failed_at_state: String,
        reason: String,
        failed_at: Timestamp,
    },
}

impl WorkflowEvent {
    /// The execution that the event belongs to; the events of a workflow
    /// definition belong to none.
    pub open spec fn scope(self) -> Option<ExecutionId> {
        match self {
            WorkflowEvent::WorkflowExecutionStarted { execution_id, .. } => Some(execution_id),
            WorkflowEvent::WorkflowStateEntered { execution_id, .. } => Some(execution_id),
            WorkflowEvent::WorkflowStateExited { execution_id, .. } => Some(execution_id),
            WorkflowEvent::WorkflowIterationStarted { execution_id, .. } => Some(execution_id),
            WorkflowEvent::WorkflowIterationCompleted { execution_id, .. } => Some(execution_id),
            WorkflowEvent::WorkflowIterationFailed { execution_id, .. } => Some(execution_id),
            WorkflowEvent::WorkflowExecutionCompleted { execution_id, .. } => Some(execution_id),
            WorkflowEvent::WorkflowExecutionFailed { execution_id, .. } => Some(execution_id),
            WorkflowEvent::WorkflowExecutionCancelled { execution_id, .. } => Some(execution_id),
            WorkflowEvent::SubworkflowTriggered { parent_execution_id, .. } => Some(
                parent_execution_id,
            ),
            WorkflowEvent::SubworkflowCompleted { parent_execution_id, .. } => Some(
                parent_execution_id,
            ),
            WorkflowEvent::SubworkflowFailed { parent_execution_id, .. } => Some(
                parent_execution_id,
            ),
            WorkflowEvent::IntentExecutionPipelineStarted { pipeline_execution_id, .. } => Some(
                pipeline_execution_id,
            ),
            WorkflowEvent::IntentExecutionPipelineCompleted { pipeline_execution_id, .. } => Some(
                pipeline_execution_id,
            ),
            WorkflowEvent::IntentExecutionPipelineFailed { pipeline_execution_id, .. } => Some(
                pipeline_execution_id,
            ),
            WorkflowEvent::WorkflowRegistered { .. } => None,
            WorkflowEvent::WorkflowScopeChanged { .. } => None,
            WorkflowEvent::WorkflowRemoved { .. } => None,
        }
    }

    /// The execution that the event belongs to.
    pub fn execution_scope(&self) -> (r: Option<ExecutionId>)
        ensures
            r == self.scope(),
    {
        match self {
            WorkflowEvent::WorkflowExecutionStarted { execution_id, .. } => Some(*execution_id),
            WorkflowEvent::WorkflowStateEntered { execution_id, .. } => Some(*execution_id),
            WorkflowEvent::WorkflowStateExited { execution_id, .. } => Some(*execution_id),
            WorkflowEvent::WorkflowIterationStarted { execution_id, .. } => Some(*execution_id),
            WorkflowEvent::WorkflowIterationCompleted { execution_id, .. } => Some(*execution_id),
            WorkflowEvent::WorkflowIterationFailed { execution_id, .. } => Some(*execution_id),
            WorkflowEvent::WorkflowExecutionCompleted { execution_id, .. } => Some(*execution_id),
            WorkflowEvent::WorkflowExecutionFailed { execution_id, .. } => Some(*execution_id),
            WorkflowEvent::WorkflowExecutionCancelled { execution_id, .. } => Some(*execution_id),
            WorkflowEvent::SubworkflowTriggered { parent_execution_id, .. } => Some(
                *parent_execution_id,
            ),
            WorkflowEvent::SubworkflowCompleted { parent_execution_id, .. } => Some(
                *parent_execution_id,
            ),
            WorkflowEvent::SubworkflowFailed { parent_execution_id, .. } => Some(
                *parent_execution_id,
            ),
            WorkflowEvent::IntentExecutionPipelineStarted { pipeline_execution_id, .. } => Some(
                *pipeline_execution_id,
            ),
            WorkflowEvent::IntentExecutionPipelineCompleted { pipeline_execution_id, .. } => Some(
                *pipeline_execution_id,
            ),
            WorkflowEvent::IntentExecutionPipelineFailed { pipeline_execution_id, .. } => Some(
                *pipeline_execution_id,
            ),
            WorkflowEvent::WorkflowRegistered { .. } => None,
            WorkflowEvent::WorkflowScopeChanged { .. } => None,
            WorkflowEvent::WorkflowRemoved { .. } => None,
        }
    }

    /// Whether the event ends its workflow execution.
    pub open spec fn ends_execution(self) -> bool {
        self is WorkflowExecutionCompleted || self is WorkflowExecutionFailed
            || self is WorkflowExecutionCancelled
    }
}

/// What happened to an agent execution.
#[derive(Debug)]
pub enum ExecutionEvent {
    RefinementApplied {
        execution_id: ExecutionId,
        agent_id: AgentId,
        iteration_number: u8,
        code_diff: CodeDiff,
        applied_at: Timestamp,
        cortex_pattern_id: Option<String>,
        cortex_pattern_category: Option<String>,
        cortex_success_score: Option<SuccessScore>,
        cortex_solution_approach: Option<String>,
    },
}

/// Why a container step failed.
#[derive(Debug)]
pub enum ContainerRunFailureReason {
    NonZeroExitCode { code: i32 },
    ResourceExhausted { detail: String },
}

/// What happened to a container step.
#[derive(Debug)]
pub enum ContainerRunEvent {
    ContainerRunStarted {
        execution_id: ExecutionId,
        state_name: String,
        step_name: String,
        image: String,
        command: Vec<String>,
        started_at: Timestamp,
    },
    ContainerRunCompleted {
        execution_id: ExecutionId,
        state_name: String,
        step_name: String,
        exit_code: i32,
        stdout_bytes: u64,
        stderr_bytes: u64,
        duration_ms: u64,
        completed_at: Timestamp,
    },
    ContainerRunFailed {
        execution_id: ExecutionId,
        state_name: String,
        step_name: String,
        reason: ContainerRunFailureReason,
        failed_at: Timestamp,
    },
}

/// What happened on a volume. `detail` says what it was about, a path mostly.
#[derive(Debug, PartialEq, Eq)]
pub enum StorageEvent {
    FileOpened {
        execution_id: Option<ExecutionId>,
        volume_id: VolumeId,
        detail: String,
        at: Timestamp,
    },
    FileRead {
        execution_id: Option<ExecutionId>,
        volume_id: VolumeId,
        detail: String,
        at: Timestamp,
    },
    FileWritten {
        execution_id: Option<ExecutionId>,
        volume_id: VolumeId,
        detail: String,
        at: Timestamp,
    },
    FileClosed {
        execution_id: Option<ExecutionId>,
        volume_id: VolumeId,
        detail: String,
        at: Timestamp,
    },
    DirectoryListed {
        execution_id: Option<ExecutionId>,
        volume_id: VolumeId,
        detail: String,
        at: Timestamp,
    },
    FileCreated {
        execution_id: Option<ExecutionId>,
        volume_id: VolumeId,
        detail: String,
        at: Timestamp,
    },
    FileDeleted {
        execution_id: Option<ExecutionId>,
        volume_id: VolumeId,
        detail: String,
        at: Timestamp,
    },
    PathTraversalBlocked { execution_id: Option<ExecutionId>, detail: String, at: Timestamp },
    FilesystemPolicyViolation {
        execution_id: Option<ExecutionId>,
        volume_id: VolumeId,
        detail: String,
        at: Timestamp,
    },
    QuotaExceeded {
        execution_id: Option<ExecutionId>,
        volume_id: VolumeId,
        detail: String,
        at: Timestamp,
    },
    UnauthorizedVolumeAccess {
        execution_id: Option<ExecutionId>,
        volume_id: VolumeId,
        detail: String,
        at: Timestamp,
    },
}

impl StorageEvent {
    /// The execution that the event belongs to.
    pub open spec fn execution(self) -> Option<ExecutionId> {
        match self {
            StorageEvent::FileOpened { execution_id, .. } => execution_id,
            StorageEvent::FileRead { execution_id, .. } => execution_id,
            StorageEvent::FileWritten { execution_id, .. } => execution_id,
            StorageEvent::FileClosed { execution_id, .. } => execution_id,
            StorageEvent::DirectoryListed { execution_id, .. } => execution_id,
            StorageEvent::FileCreated { execution_id, .. } => execution_id,
            StorageEvent::FileDeleted { execution_id, .. } => execution_id,
            StorageEvent::PathTraversalBlocked { execution_id, .. } => execution_id,
            StorageEvent::FilesystemPolicyViolation { execution_id, .. } => execution_id,
            StorageEvent::QuotaExceeded { execution_id, .. } => execution_id,
            StorageEvent::UnauthorizedVolumeAccess { execution_id, .. } => execution_id,
        }
    }

    /// The volume that the event is about. A blocked path names none.
    pub open spec fn volume(self) -> Option<VolumeId> {
        match self {
            StorageEvent::FileOpened { volume_id, .. } => Some(volume_id),
            StorageEvent::FileRead { volume_id, .. } => Some(volume_id),
            StorageEvent::FileWritten { volume_id, .. } => Some(volume_id),
            StorageEvent::FileClosed { volume_id, .. } => Some(volume_id),
            StorageEvent::DirectoryListed { volume_id, .. } => Some(volume_id),
            StorageEvent::FileCreated { volume_id, .. } => Some(volume_id),
            StorageEvent::FileDeleted { volume_id, .. } => Some(volume_id),
            StorageEvent::PathTraversalBlocked { .. } => None,
            StorageEvent::FilesystemPolicyViolation { volume_id, .. } => Some(volume_id),
            StorageEvent::QuotaExceeded { volume_id, .. } => Some(volume_id),
            StorageEvent::UnauthorizedVolumeAccess { volume_id, .. } => Some(volume_id),
        }
    }

    /// When the event happened.
    pub open spec fn time(self) -> Timestamp {
        match self {
            StorageEvent::FileOpened { at, .. } => at,
            StorageEvent::FileRead { at, .. } => at,
            StorageEvent::FileWritten { at, .. } => at,
            StorageEvent::FileClosed { at, .. } => at,
            StorageEvent::DirectoryListed { at, .. } => at,
            StorageEvent::FileCreated { at, .. } => at,
            StorageEvent::FileDeleted { at, .. } => at,
            StorageEvent::PathTraversalBlocked { at, .. } => at,
            StorageEvent::FilesystemPolicyViolation { at, .. } => at,
            StorageEvent::QuotaExceeded { at, .. } => at,
            StorageEvent::UnauthorizedVolumeAccess { at, .. } => at,
        }
    }

    /// Whether something was attempted that is not allowed.
    pub open spec fn violation(self) -> bool {
        self is PathTraversalBlocked || self is FilesystemPolicyViolation || self is QuotaExceeded
            || self is UnauthorizedVolumeAccess
    }

    /// The execution that the event belongs to.
    pub fn execution_id(&self) -> (r: Option<ExecutionId>)
        ensures
            r == self.execution(),
    {
        match self {
            StorageEvent::FileOpened { execution_id, .. } => *execution_id,
            StorageEvent::FileRead { execution_id, .. } => *execution_id,
            StorageEvent::FileWritten { execution_id, .. } => *execution_id,
            StorageEvent::FileClosed { execution_id, .. } => *execution_id,
            StorageEvent::DirectoryListed { execution_id, .. } => *execution_id,
            StorageEvent::FileCreated { execution_id, .. } => *execution_id,
            StorageEvent::FileDeleted { execution_id, .. } => *execution_id,
            StorageEvent::PathTraversalBlocked { execution_id, .. } => *execution_id,
            StorageEvent::FilesystemPolicyViolation { execution_id, .. } => *execution_id,
            StorageEvent::QuotaExceeded { execution_id, .. } => *execution_id,
            StorageEvent::UnauthorizedVolumeAccess { execution_id, .. } => *execution_id,
        }
    }

    /// The volume that the event is about.
    pub fn volume_id(&self) -> (r: Option<VolumeId>)
        ensures
            r == self.volume(),
    {
        match self {
            StorageEvent::FileOpened { volume_id, .. } => Some(*volume_id),
            StorageEvent::FileRead { volume_id, .. } => Some(*volume_id),
            StorageEvent::FileWritten { volume_id, .. } => Some(*volume_id),
            StorageEvent::FileClosed { volume_id, .. } => Some(*volume_id),
            StorageEvent::DirectoryListed { volume_id, .. } => Some(*volume_id),
            StorageEvent::FileCreated { volume_id, .. } => Some(*volume_id),
            StorageEvent::FileDeleted { volume_id, .. } => Some(*volume_id),
            StorageEvent::PathTraversalBlocked { .. } => None,
            StorageEvent::FilesystemPolicyViolation { volume_id, .. } => Some(*volume_id),
            StorageEvent::QuotaExceeded { volume_id, .. } => Some(*volume_id),
            StorageEvent::UnauthorizedVolumeAccess { volume_id, .. } => Some(*volume_id),
        }
    }

    /// When the event happened.
    pub fn happened_at(&self) -> (r: Timestamp)
        ensures
            r == self.time(),
    {
        match self {
            StorageEvent::FileOpened { at, .. } => *at,
            StorageEvent::FileRead { at, .. } => *at,
            StorageEvent::FileWritten { at, .. } => *at,
            StorageEvent::FileClosed { at, .. } => *at,
            StorageEvent::DirectoryListed { at, .. } => *at,
            StorageEvent::FileCreated { at, .. } => *at,
            StorageEvent::FileDeleted { at, .. } => *at,
            StorageEvent::PathTraversalBlocked { at, .. } => *at,
            StorageEvent::FilesystemPolicyViolation { at, .. } => *at,
            StorageEvent::QuotaExceeded { at, .. } => *at,
            StorageEvent::UnauthorizedVolumeAccess { at, .. } => *at,
        }
    }

    /// Whether something was attempted that is not allowed.
    pub fn is_violation(&self) -> (r: bool)
        ensures
            r == self.violation(),
    {
        match self {
            StorageEvent::PathTraversalBlocked { .. } => true,
            StorageEvent::FilesystemPolicyViolation { .. } => true,
            StorageEvent::QuotaExceeded { .. } => true,
            StorageEvent::UnauthorizedVolumeAccess { .. } => true,
            _ => false,
        }
    }
}

impl View for StorageEvent {
    type V = StorageEvent;

    open spec fn view(&self) -> StorageEvent {
        *self
    }
}

impl Stored for StorageEvent {
    fn duplicate(&self) -> (r: Self) {
        match self {
            StorageEvent::FileOpened { execution_id, volume_id, detail, at } => StorageEvent::FileOpened {
                execution_id: *execution_id,
                volume_id: *volume_id,
                detail: detail.clone(),
                at: *at,
            },
            StorageEvent::FileRead { execution_id, volume_id, detail, at } => StorageEvent::FileRead {
                execution_id: *execution_id,
                volume_id: *volume_id,
                detail: detail.clone(),
                at: *at,
            },
            StorageEvent::FileWritten { execution_id, volume_id, detail, at } => StorageEvent::FileWritten {
                execution_id: *execution_id,
                volume_id: *volume_id,
                detail: detail.clone(),
                at: *at,
            },
            StorageEvent::FileClosed { execution_id, volume_id, detail, at } => StorageEvent::FileClosed {
                execution_id: *execution_id,
                volume_id: *volume_id,
                detail: detail.clone(),
                at: *at,
            },
            StorageEvent::DirectoryListed { execution_id, volume_id, detail, at } => StorageEvent::DirectoryListed {
                execution_id: *execution_id,
                volume_id: *volume_id,
                detail: detail.clone(),
                at: *at,
            },
            StorageEvent::FileCreated { execution_id, volume_id, detail, at } => StorageEvent::FileCreated {
                execution_id: *execution_id,
                volume_id: *volume_id,
                detail: detail.clone(),
                at: *at,
            },
            StorageEvent::FileDeleted { execution_id, volume_id, detail, at } => StorageEvent::FileDeleted {
                execution_id: *execution_id,
                volume_id: *volume_id,
                detail: detail.clone(),
                at: *at,
            },
            StorageEvent::PathTraversalBlocked { execution_id, detail, at } => StorageEvent::PathTraversalBlocked {
                execution_id: *execution_id,
                detail: detail.clone(),
                at: *at,
            },
            StorageEvent::FilesystemPolicyViolation { execution_id, volume_id, detail, at } => StorageEvent::FilesystemPolicyViolation {
                execution_id: *execution_id,
                volume_id: *volume_id,
                detail: detail.clone(),
                at: *at,
            },
            StorageEvent::QuotaExceeded { execution_id, volume_id, detail, at } => StorageEvent::QuotaExceeded {
                execution_id: *execution_id,
                volume_id: *volume_id,
                detail: detail.clone(),
                at: *at,
            },
            StorageEvent::UnauthorizedVolumeAccess { execution_id, volume_id, detail, at } => StorageEvent::UnauthorizedVolumeAccess {
                execution_id: *execution_id,
                volume_id: *volume_id,
                detail: detail.clone(),
                at: *at,
            },
        }
    }
}

/// An event tells of the execution, the volume and the time that it was made
/// with, and is a violation exactly where something was attempted that is not
/// allowed. A blocked path names no volume.
pub proof fn storage_events_tell_what_they_were_made_with(event: StorageEvent)
    ensures
        event matches StorageEvent::FileOpened { execution_id, volume_id, at, .. } ==> event.execution()
            == execution_id && event.volume() == Some(volume_id) && event.time() == at
            && !event.violation(),
        event matches StorageEvent::FileRead { execution_id, volume_id, at, .. } ==> event.execution()
            == execution_id && event.volume() == Some(volume_id) && event.time() == at
            && !event.violation(),
        event matches StorageEvent::FileWritten { execution_id, volume_id, at, .. } ==> event.execution()
            == execution_id && event.volume() == Some(volume_id) && event.time() == at
            && !event.violation(),
        event matches StorageEvent::FileClosed { execution_id, volume_id, at, .. } ==> event.execution()
            == execution_id && event.volume() == Some(volume_id) && event.time() == at
            && !event.violation(),
        event matches StorageEvent::DirectoryListed { execution_id, volume_id, at, .. } ==> event.execution()
            == execution_id && event.volume() == Some(volume_id) && event.time() == at
            && !event.violation(),
        event matches StorageEvent::FileCreated { execution_id, volume_id, at, .. } ==> event.execution()
            == execution_id && event.volume() == Some(volume_id) && event.time() == at
            && !event.violation(),
        event matches StorageEvent::FileDeleted { execution_id, volume_id, at, .. } ==> event.execution()
            == execution_id && event.volume() == Some(volume_id) && event.time() == at
            && !event.violation(),
        event matches StorageEvent::FilesystemPolicyViolation { execution_id, volume_id, at, .. } ==> event.execution()
            == execution_id && event.volume() == Some(volume_id) && event.time() == at
            && event.violation(),
        event matches StorageEvent::QuotaExceeded { execution_id, volume_id, at, .. } ==> event.execution()
            == execution_id && event.volume() == Some(volume_id) && event.time() == at
            && event.violation(),
        event matches StorageEvent::UnauthorizedVolumeAccess { execution_id, volume_id, at, .. } ==> event.execution()
            == execution_id && event.volume() == Some(volume_id) && event.time() == at
            && event.violation(),
        event matches StorageEvent::PathTraversalBlocked { execution_id, at, .. }
            ==> event.execution() == execution_id && event.volume() is None && event.time() == at
            && event.violation(),
{
}

/// A workflow event belongs to its execution; one about a workflow within
/// another to the outer execution; one about a pipeline to the pipeline's; one
/// about a definition to none. An execution ends by completing, by failing or by
/// being cancelled, and by nothing else.
pub proof fn workflow_events_belong_where_they_happened(event: WorkflowEvent)
    ensures
        event matches WorkflowEvent::WorkflowExecutionStarted { execution_id, .. } ==> event.scope() == Some(
            execution_id,
        ) && !event.ends_execution(),
        event matches WorkflowEvent::WorkflowStateEntered { execution_id, .. } ==> event.scope() == Some(
            execution_id,
        ) && !event.ends_execution(),
        event matches WorkflowEvent::WorkflowStateExited { execution_id, .. } ==> event.scope() == Some(
            execution_id,
        ) && !event.ends_execution(),
        event matches WorkflowEvent::WorkflowIterationStarted { execution_id, .. } ==> event.scope() == Some(
            execution_id,
        ) && !event.ends_execution(),
        event matches WorkflowEvent::WorkflowIterationCompleted { execution_id, .. } ==> event.scope() == Some(
            execution_id,
        ) && !event.ends_execution(),
        event matches WorkflowEvent::WorkflowIterationFailed { execution_id, .. } ==> event.scope() == Some(
            execution_id,
        ) && !event.ends_execution(),
        event matches WorkflowEvent::WorkflowExecutionCompleted { execution_id, .. } ==> event.scope() == Some(
            execution_id,
        ) && event.ends_execution(),
        event matches WorkflowEvent::WorkflowExecutionFailed { execution_id, .. } ==> event.scope() == Some(
            execution_id,
        ) && event.ends_execution(),
        event matches WorkflowEvent::WorkflowExecutionCancelled { execution_id, .. } ==> event.scope() == Some(
            execution_id,
        ) && event.ends_execution(),
        event matches WorkflowEvent::SubworkflowTriggered { parent_execution_id, .. } ==> event.scope() == Some(
            parent_execution_id,
        ) && !event.ends_execution(),
        event matches WorkflowEvent::SubworkflowCompleted { parent_execution_id, .. } ==> event.scope() == Some(
            parent_execution_id,
        ) && !event.ends_execution(),
        event matches WorkflowEvent::SubworkflowFailed { parent_execution_id, .. } ==> event.scope() == Some(
            parent_execution_id,
        ) && !event.ends_execution(),
        event matches WorkflowEvent::IntentExecutionPipelineStarted { pipeline_execution_id, .. } ==> event.scope() == Some(
            pipeline_execution_id,
        ) && !event.ends_execution(),
        event matches WorkflowEvent::IntentExecutionPipelineCompleted { pipeline_execution_id, .. } ==> event.scope() == Some(
            pipeline_execution_id,
        ) && !event.ends_execution(),
        event matches WorkflowEvent::IntentExecutionPipelineFailed { pipeline_execution_id, .. } ==> event.scope() == Some(
            pipeline_execution_id,
        ) && !event.ends_execution(),
        event is WorkflowRegistered ==> event.scope() is None && !event.ends_execution(),
        event is WorkflowScopeChanged ==> event.scope() is None && !event.ends_execution(),
        event is WorkflowRemoved ==> event.scope() is None && !event.ends_execution(),
{
}

} // verus!
