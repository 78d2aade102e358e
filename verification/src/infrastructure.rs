//! Adapters between the domain and what surrounds it.

pub mod docker;
pub mod edge;
pub mod llm;
pub mod repositories;
pub mod seal;
pub mod storage;
pub mod temporal_event_listener;
