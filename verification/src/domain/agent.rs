//! Agents.

use vstd::prelude::*;
use crate::domain::shared_kernel::{AgentId, TenantId};
use crate::support::clock::Timestamp;
use crate::support::stored::{Keyed, Stored};

verus! {

/// Who can see an agent: its tenant, or every tenant.
#[derive(Clone, Copy, Debug, PartialEq, Eq, Hash, Structural)]
pub enum AgentScope {
    Tenant,
    Global,
}

/// Whether an agent can be run.
#[derive(Clone, Copy, Debug, PartialEq, Eq, Hash, Structural)]
pub enum AgentStatus {
    Active,
    Inactive,
}

/// Name and version of an agent.
#[derive(Debug, PartialEq, Eq)]
pub struct ManifestMetadata {
    pub name: String,
    pub version: String,
}

/// What an agent is made from: its name and version, and the rest of its
/// manifest.
#[derive(Debug, PartialEq, Eq)]
pub struct AgentManifest {
    pub metadata: ManifestMetadata,
    pub spec: serde_json::Value,
}

impl AgentManifest {
    /// A copy of the manifest.
    pub fn copy(&self) -> (r: AgentManifest)
        ensures
            r == *self,
    {
        AgentManifest {
            metadata: ManifestMetadata {
                name: self.metadata.name.clone(),
                version: self.metadata.version.clone(),
            },
            spec: self.spec.clone(),
        }
    }
}

/// A deployed agent.
#[derive(Debug, PartialEq, Eq)]
pub struct Agent {
    pub id: AgentId,
    pub tenant_id: TenantId,
    pub scope: AgentScope,
    pub name: String,
    pub manifest: AgentManifest,
    pub status: AgentStatus,
    pub created_at: Timestamp,
    pub updated_at: Timestamp,
}

impl Agent {
    /// A copy of the agent.
    pub fn copy(&self) -> (r: Agent)
        ensures
            r == *self,
    {
        Agent {
            id: self.id,
            tenant_id: self.tenant_id.copy(),
            scope: self.scope,
            name: self.name.clone(),
            manifest: self.manifest.copy(),
            status: self.status,
            created_at: self.created_at,
            updated_at: self.updated_at,
        }
    }

    /// The agent with another manifest: its name follows the manifest's, and
    /// what else it is stays.
    pub fn update_manifest(self, manifest: AgentManifest, now: Timestamp) -> (r: Agent)
        ensures
            r == (Agent {
                name: manifest.metadata.name,
                manifest: manifest,
                updated_at: now,
                ..self
            }),
    {
        let name = manifest.metadata.name.clone();
        Agent {
            id: self.id,
            tenant_id: self.tenant_id,
            scope: self.scope,
            name,
            manifest,
            status: self.status,
            created_at: self.created_at,
            updated_at: now,
        }
    }
}

impl View for Agent {
    type V = Agent;

    open spec fn view(&self) -> Agent {
        *self
    }
}

impl Stored for Agent {
    fn duplicate(&self) -> (r: Self) {
        self.copy()
    }
}

impl Keyed for Agent {
    open spec fn key_of(contents: Agent) -> u128 {
        contents.id.0.bits
    }

    fn key(&self) -> (r: u128) {
        self.id.0.bits
    }
}

/// An agent is kept under its own identifier.
pub proof fn agents_are_kept_under_their_identifier(agent: Agent)
    ensures
        Agent::key_of(agent@) == agent.id.0.bits,
        agent@ == agent,
{
}

} // verus!
