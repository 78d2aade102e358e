//! Agent executions.

use vstd::prelude::*;
use crate::domain::shared_kernel::{AgentId, ExecutionId, TenantId, Uuid};
use crate::support::clock::Timestamp;
use crate::support::stored::{Keyed, Stored};

verus! {

/// A change to one file of a workspace.
#[derive(Debug, PartialEq, Eq)]
pub struct CodeDiff {
    pub file_path: String,
    pub diff: String,
}

/// How far an execution is.
#[derive(Clone, Copy, Debug, PartialEq, Eq, Hash, Structural)]
pub enum ExecutionStatus {
    Pending,
    Running,
    Completed,
    Failed,
    Cancelled,
}

/// One iteration of an execution: its output, and the rest of its record.
#[derive(Debug, PartialEq, Eq)]
pub struct Iteration {
    pub output: Option<String>,
    pub record: serde_json::Value,
}

impl Clone for Iteration {
    fn clone(&self) -> (r: Self)
        ensures
            r == *self,
    {
        Iteration { output: self.output.clone(), record: self.record.clone() }
    }
}

/// What an execution was started with.
#[derive(Debug, PartialEq, Eq)]
pub struct ExecutionInput {
    pub document: serde_json::Value,
}

/// Where an execution stands among those that started it.
#[derive(Debug, PartialEq, Eq)]
pub struct ExecutionHierarchy {
    pub parent_execution_id: Option<ExecutionId>,
    pub depth: u8,
    pub path: Vec<ExecutionId>,
    pub swarm_id: Option<Uuid>,
}

/// The contents of an [`ExecutionHierarchy`].
pub ghost struct HierarchyView {
    pub parent: Option<ExecutionId>,
    pub depth: u8,
    pub path: Seq<ExecutionId>,
    pub swarm_id: Option<Uuid>,
}

impl View for ExecutionHierarchy {
    type V = HierarchyView;

    open spec fn view(&self) -> HierarchyView {
        HierarchyView {
            parent: self.parent_execution_id,
            depth: self.depth,
            path: self.path@,
            swarm_id: self.swarm_id,
        }
    }
}

impl ExecutionHierarchy {
    /// The hierarchy of an execution that no other started.
    pub fn root(id: ExecutionId) -> (r: ExecutionHierarchy)
        ensures
            r@ == (HierarchyView { parent: None, depth: 0, path: seq![id], swarm_id: None }),
    {
        let mut path: Vec<ExecutionId> = Vec::new();
        path.push(id);
        proof {
            assert(path@ =~= seq![id]);
        }
        ExecutionHierarchy { parent_execution_id: None, depth: 0, path, swarm_id: None }
    }
}

/// A run of an agent.
#[derive(Debug, PartialEq, Eq)]
pub struct Execution {
    pub id: ExecutionId,
    pub agent_id: AgentId,
    pub tenant_id: TenantId,
    pub status: ExecutionStatus,
    pub iterations: Vec<Iteration>,
    pub max_iterations: u8,
    pub container_uid: u32,
    pub container_gid: u32,
    pub input: ExecutionInput,
    pub started_at: Timestamp,
    pub ended_at: Option<Timestamp>,
    pub error: Option<String>,
    pub hierarchy: ExecutionHierarchy,
    pub security_context_name: String,
    pub initiating_user_sub: Option<String>,
}

/// The contents of an [`Execution`].
pub ghost struct ExecutionView {
    pub id: ExecutionId,
    pub agent_id: AgentId,
    pub tenant: Seq<char>,
    pub status: ExecutionStatus,
    pub iterations: Seq<Iteration>,
    pub max_iterations: u8,
    pub container_uid: u32,
    pub container_gid: u32,
    pub input: ExecutionInput,
    pub started_at: Timestamp,
    pub ended_at: Option<Timestamp>,
    pub error: Option<String>,
    pub hierarchy: HierarchyView,
    pub security_context_name: String,
    pub initiating_user_sub: Option<String>,
}

impl View for Execution {
    type V = ExecutionView;

    open spec fn view(&self) -> ExecutionView {
        ExecutionView {
            id: self.id,
            agent_id: self.agent_id,
            tenant: self.tenant_id@,
            status: self.status,
            iterations: self.iterations@,
            max_iterations: self.max_iterations,
            container_uid: self.container_uid,
            container_gid: self.container_gid,
            input: self.input,
            started_at: self.started_at,
            ended_at: self.ended_at,
            error: self.error,
            hierarchy: self.hierarchy@,
            security_context_name: self.security_context_name,
            initiating_user_sub: self.initiating_user_sub,
        }
    }
}

impl Stored for Execution {
    fn duplicate(&self) -> (r: Self) {
        let iterations = self.iterations.clone();
        let path = self.hierarchy.path.clone();
        proof {
            assert(iterations@ =~= self.iterations@);
            assert(path@ =~= self.hierarchy.path@);
        }
        Execution {
            id: self.id,
            agent_id: self.agent_id,
            tenant_id: self.tenant_id.copy(),
            status: self.status,
            iterations,
            max_iterations: self.max_iterations,
            container_uid: self.container_uid,
            container_gid: self.container_gid,
            input: ExecutionInput { document: self.input.document.clone() },
            started_at: self.started_at,
            ended_at: self.ended_at,
            error: self.error.clone(),
            hierarchy: ExecutionHierarchy {
                parent_execution_id: self.hierarchy.parent_execution_id,
                depth: self.hierarchy.depth,
                path,
                swarm_id: self.hierarchy.swarm_id,
            },
            security_context_name: self.security_context_name.clone(),
            initiating_user_sub: self.initiating_user_sub.clone(),
        }
    }
}

impl Keyed for Execution {
    open spec fn key_of(contents: ExecutionView) -> u128 {
        contents.id.0.bits
    }

    fn key(&self) -> (r: u128) {
        self.id.0.bits
    }
}

/// The contents of an execution are its own parts, and it is kept under its own
/// identifier.
pub proof fn contents_are_the_parts(e: Execution)
    ensures
        e@.id == e.id,
        e@.agent_id == e.agent_id,
        e@.tenant == e.tenant_id@,
        e@.status == e.status,
        e@.iterations == e.iterations@,
        e@.max_iterations == e.max_iterations,
        e@.container_uid == e.container_uid,
        e@.container_gid == e.container_gid,
        e@.input == e.input,
        e@.started_at == e.started_at,
        e@.ended_at == e.ended_at,
        e@.error == e.error,
        e@.hierarchy.parent == e.hierarchy.parent_execution_id,
        e@.hierarchy.depth == e.hierarchy.depth,
        e@.hierarchy.path == e.hierarchy.path@,
        e@.hierarchy.swarm_id == e.hierarchy.swarm_id,
        e@.security_context_name == e.security_context_name,
        e@.initiating_user_sub == e.initiating_user_sub,
        Execution::key_of(e@) == e.id.0.bits,
{
}

} // verus!
