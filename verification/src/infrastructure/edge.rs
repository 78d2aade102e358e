//! Edge daemons and their groups as stored rows.

pub mod group_repo;
pub mod postgres_repo;
