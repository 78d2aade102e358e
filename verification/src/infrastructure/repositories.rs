//! Repositories: in-memory stores and the rows of the relational ones.

pub mod agents;
pub mod executions;
pub mod postgres_execution;
pub mod postgres_workflow_execution;
pub mod storage_events;
pub mod store;
pub mod volumes;
pub mod workflow_executions;
pub mod workflows;

pub use agents::InMemoryAgentRepository;
pub use executions::InMemoryExecutionRepository;
pub use storage_events::InMemoryStorageEventRepository;
pub use volumes::InMemoryVolumeRepository;
pub use workflow_executions::InMemoryWorkflowExecutionRepository;
pub use workflows::InMemoryWorkflowRepository;
