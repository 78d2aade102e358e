//! The container runtime.

pub mod container_verifier;
