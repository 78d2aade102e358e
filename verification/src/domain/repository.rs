//! What repositories share: their backends and their errors.

use vstd::prelude::*;
use crate::domain::shared_kernel::Uuid;
use crate::support::clock::Timestamp;

verus! {

/// Where values are kept.
#[derive(Clone, Debug, PartialEq, Eq)]
pub enum StorageBackend {
    InMemory,
    PostgreSQL(PostgresConfig),
}

/// How a database is reached.
#[derive(Clone, Debug, PartialEq, Eq)]
pub struct PostgresConfig {
    pub connection_string: String,
}

/// One version out of an agent's history.
#[derive(Clone, Debug, PartialEq, Eq)]
pub struct AgentVersion {
    pub id: Uuid,
    pub version: String,
    pub created_at: Timestamp,
    pub manifest_yaml: String,
}

/// Why a repository failed.
#[derive(Debug, PartialEq, Eq)]
pub enum RepositoryError {
    NotFound(String),
    Database(String),
    Serialization(String),
    Unknown(String),
}

impl RepositoryError {
    /// What the error says.
    pub open spec fn message(self) -> Seq<char> {
        match self {
            RepositoryError::NotFound(m) => "Entity not found: "@ + m@,
            RepositoryError::Database(m) => "Database error: "@ + m@,
            RepositoryError::Serialization(m) => "Serialization error: "@ + m@,
            RepositoryError::Unknown(m) => "Unknown error: "@ + m@,
        }
    }

    /// What the error says.
    pub fn to_string(&self) -> (r: String)
        ensures
            r@ == self.message(),
    {
        match self {
            RepositoryError::NotFound(m) => "Entity not found: ".to_owned().concat(m.as_str()),
            RepositoryError::Database(m) => "Database error: ".to_owned().concat(m.as_str()),
            RepositoryError::Serialization(m) => {
                "Serialization error: ".to_owned().concat(m.as_str())
            },
            RepositoryError::Unknown(m) => "Unknown error: ".to_owned().concat(m.as_str()),
        }
    }

    /// The error that a database's own error stands for: a missing row is
    /// something not found, all else is the database's.
    pub fn from_database(row_not_found: bool, message: String) -> (r: RepositoryError)
        ensures
            row_not_found ==> (r matches RepositoryError::NotFound(m) && m@ == "Row not found"@),
            !row_not_found ==> r == RepositoryError::Database(message),
    {
        if row_not_found {
            RepositoryError::NotFound("Row not found".to_owned())
        } else {
            RepositoryError::Database(message)
        }
    }
}

/// What an error says begins with its sort and ends with its own words.
pub proof fn errors_say_their_sort_and_words(e: RepositoryError)
    ensures
        e matches RepositoryError::NotFound(m) ==> e.message() == "Entity not found: "@ + m@,
        e matches RepositoryError::Database(m) ==> e.message() == "Database error: "@ + m@,
        e matches RepositoryError::Serialization(m) ==> e.message() == "Serialization error: "@
            + m@,
        e matches RepositoryError::Unknown(m) ==> e.message() == "Unknown error: "@ + m@,
{
}

} // verus!
