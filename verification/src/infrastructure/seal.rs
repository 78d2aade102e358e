//! The sealed channel through which agents call tools.

pub mod middleware;
