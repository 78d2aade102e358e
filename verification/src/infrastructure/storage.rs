//! Storage adapters: what they ask of the other side, and what they make of
//! the answer.

pub mod http;
pub mod paths;
pub mod remote_storage_server;
pub mod seaweedfs;
