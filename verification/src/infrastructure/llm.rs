//! Language model providers.

pub mod registry;
