//! Application-level rules.

pub mod tool_invocation_service;
