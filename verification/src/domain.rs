//! Domain types and rules.

pub mod agent;
pub mod edge;
pub mod events;
pub mod execution;
pub mod fsal;
pub mod iam;
pub mod llm;
pub mod mcp;
pub mod node_config;
pub mod rate_limit;
pub mod repository;
pub mod seal_session;
pub mod shared_kernel;
pub mod storage;
pub mod volume;
pub mod workflow;
