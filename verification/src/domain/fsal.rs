//! What is asked of the file system layer, and why it refuses.

use vstd::prelude::*;
use crate::domain::shared_kernel::{ExecutionId, NodeId, VolumeId};
use crate::domain::storage::StorageError;

verus! {

/// Which paths may be read and written, as patterns.
#[derive(Debug, PartialEq, Eq)]
pub struct FsalAccessPolicy {
    pub read: Vec<String>,
    pub write: Vec<String>,
}

/// Why the file system layer refused. But for the store's own errors each comes
/// with what it says.
#[derive(Debug, PartialEq, Eq)]
pub enum FsalError {
    UnauthorizedAccess(String),
    VolumeNotFound(String),
    VolumeNotAttached(String),
    PathSanitization(String),
    PolicyViolation(String),
    InvalidFileHandle(String),
    HandleDeserialization(String),
    QuotaExceeded(String),
    Storage(StorageError),
}

/// Who asks for what on which volume.
#[derive(Clone, Copy, Debug, PartialEq, Eq, Structural)]
pub struct Provenance {
    pub execution_id: ExecutionId,
    pub volume_id: VolumeId,
    pub caller_node_id: NodeId,
    pub host_node_id: NodeId,
}

} // verus!
