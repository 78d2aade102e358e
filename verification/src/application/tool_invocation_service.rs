//! Rules of the tools that agents invoke.

pub mod workflows;
