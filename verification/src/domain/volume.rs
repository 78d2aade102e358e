//! Volumes.

use vstd::prelude::*;
use crate::domain::shared_kernel::{ExecutionId, NodeId, TenantId, VolumeId};
use crate::support::clock::Timestamp;
use crate::support::stored::Stored;
use crate::support::text::same_text;

verus! {

/// Who a volume belongs to.
#[derive(Debug, PartialEq, Eq)]
pub enum VolumeOwnership {
    Execution { execution_id: ExecutionId },
    Persistent { owner: String },
}

/// The owner that a [`VolumeOwnership`] names.
pub ghost enum OwnerView {
    Execution { execution_id: ExecutionId },
    Persistent { owner: Seq<char> },
}

impl View for VolumeOwnership {
    type V = OwnerView;

    open spec fn view(&self) -> OwnerView {
        match self {
            VolumeOwnership::Execution { execution_id } => OwnerView::Execution {
                execution_id: *execution_id,
            },
            VolumeOwnership::Persistent { owner } => OwnerView::Persistent { owner: owner@ },
        }
    }
}

impl VolumeOwnership {
    /// Whether both name the same owner.
    pub fn same(&self, other: &VolumeOwnership) -> (r: bool)
        ensures
            r == (self@ == other@),
    {
        match (self, other) {
            (
                VolumeOwnership::Execution { execution_id: a },
                VolumeOwnership::Execution { execution_id: b },
            ) => *a == *b,
            (
                VolumeOwnership::Persistent { owner: a },
                VolumeOwnership::Persistent { owner: b },
            ) => same_text(a.as_str(), b.as_str()),
            _ => false,
        }
    }
}

/// Whether a volume can be used.
#[derive(Clone, Copy, Debug, PartialEq, Eq, Hash, Structural)]
pub enum VolumeStatus {
    Available,
    Attached,
    Deleted,
}

/// A volume; its class and how it is stored are kept as they were given.
#[derive(Debug, PartialEq, Eq)]
pub struct Volume {
    pub id: VolumeId,
    pub name: String,
    pub tenant_id: TenantId,
    pub storage_class: serde_json::Value,
    pub backend: serde_json::Value,
    pub size_limit_bytes: u64,
    pub status: VolumeStatus,
    pub ownership: VolumeOwnership,
    pub created_at: Timestamp,
    pub attached_at: Option<Timestamp>,
    pub detached_at: Option<Timestamp>,
    pub expires_at: Option<Timestamp>,
    pub host_node_id: Option<NodeId>,
}

impl View for Volume {
    type V = Volume;

    open spec fn view(&self) -> Volume {
        *self
    }
}

impl Stored for Volume {
    fn duplicate(&self) -> (r: Self) {
        Volume {
            id: self.id,
            name: self.name.clone(),
            tenant_id: self.tenant_id.copy(),
            storage_class: self.storage_class.clone(),
            backend: self.backend.clone(),
            size_limit_bytes: self.size_limit_bytes,
            status: self.status,
            ownership: match &self.ownership {
                VolumeOwnership::Execution { execution_id } => VolumeOwnership::Execution {
                    execution_id: *execution_id,
                },
                VolumeOwnership::Persistent { owner } => VolumeOwnership::Persistent {
                    owner: owner.clone(),
                },
            },
            created_at: self.created_at,
            attached_at: self.attached_at,
            detached_at: self.detached_at,
            expires_at: self.expires_at,
            host_node_id: self.host_node_id,
        }
    }
}

/// Two owners are the same exactly where both are the same execution or the
/// same user; an execution is never a user.
pub proof fn owners_are_told_apart(a: VolumeOwnership, b: VolumeOwnership)
    ensures
        a is Execution && b is Persistent ==> a@ != b@,
        a is Execution && b is Execution ==> (a@ == b@ <==> a->execution_id == b->execution_id),
        a is Persistent && b is Persistent ==> (a@ == b@ <==> a->owner@ == b->owner@),
{
}

} // verus!
