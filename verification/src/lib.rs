//! Verified core of the AEGIS orchestrator.
//!
//! The `domain` modules hold the types and rules that the rest of the library
//! speaks of, `infrastructure` the in-memory stores, the decoding of stored
//! rows, the mapping of worker events, the model registry, the storage
//! adapters' decisions and the call middleware, `application` the naming rules
//! of tool artifacts, and `support` the text, time and JSON helpers, with the
//! few calls into other crates.

pub mod application;
pub mod domain;
pub mod infrastructure;
pub mod support;
