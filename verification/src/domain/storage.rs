//! Files as storage providers see them.

use vstd::prelude::*;

verus! {

/// Why a storage operation failed.
#[derive(Debug, PartialEq, Eq)]
pub enum StorageError {
    NotFound(String),
    FileNotFound(String),
    PermissionDenied(String),
    AlreadyExists(String),
    QuotaExceeded { limit_bytes: u64 },
    Unavailable(String),
    InvalidPath(String),
    Serialization(String),
    Unknown(String),
}

impl StorageError {
    /// Whether nothing is stored under the path.
    pub open spec fn is_not_found(self, path: Seq<char>) -> bool {
        self matches StorageError::NotFound(p) && p@ == path
    }

    /// Whether there is no file of that path.
    pub open spec fn is_file_not_found(self, path: Seq<char>) -> bool {
        self matches StorageError::FileNotFound(p) && p@ == path
    }

    /// Whether a path is refused with the given words.
    pub open spec fn is_invalid_path(self, words: Seq<char>) -> bool {
        self matches StorageError::InvalidPath(m) && m@ == words
    }

    /// Whether the store is out of reach, with the given words.
    pub open spec fn is_unavailable(self, words: Seq<char>) -> bool {
        self matches StorageError::Unavailable(m) && m@ == words
    }

    /// Whether a document was not understood, with the given words.
    pub open spec fn is_serialization(self, words: Seq<char>) -> bool {
        self matches StorageError::Serialization(m) && m@ == words
    }

    /// Whether the failure is of no other sort, with the given words.
    pub open spec fn is_unknown(self, words: Seq<char>) -> bool {
        self matches StorageError::Unknown(m) && m@ == words
    }

    /// What the error says.
    pub open spec fn message(self) -> Seq<char> {
        match self {
            StorageError::NotFound(m) => "Not found: "@ + m@,
            StorageError::FileNotFound(m) => "File not found: "@ + m@,
            StorageError::PermissionDenied(m) => "Permission denied: "@ + m@,
            StorageError::AlreadyExists(m) => "Already exists: "@ + m@,
            StorageError::QuotaExceeded { .. } => "quota exceeded"@,
            StorageError::Unavailable(m) => "Unavailable: "@ + m@,
            StorageError::InvalidPath(m) => "Invalid path: "@ + m@,
            StorageError::Serialization(m) => "Serialization error: "@ + m@,
            StorageError::Unknown(m) => "Unknown error: "@ + m@,
        }
    }

    /// What the error says.
    pub fn to_string(&self) -> (r: String)
        ensures
            r@ == self.message(),
    {
        match self {
            StorageError::NotFound(m) => "Not found: ".to_owned().concat(m.as_str()),
            StorageError::FileNotFound(m) => "File not found: ".to_owned().concat(m.as_str()),
            StorageError::PermissionDenied(m) => "Permission denied: ".to_owned().concat(m.as_str()),
            StorageError::AlreadyExists(m) => "Already exists: ".to_owned().concat(m.as_str()),
            StorageError::QuotaExceeded { .. } => "quota exceeded".to_owned(),
            StorageError::Unavailable(m) => "Unavailable: ".to_owned().concat(m.as_str()),
            StorageError::InvalidPath(m) => "Invalid path: ".to_owned().concat(m.as_str()),
            StorageError::Serialization(m) => "Serialization error: ".to_owned().concat(m.as_str()),
            StorageError::Unknown(m) => "Unknown error: ".to_owned().concat(m.as_str()),
        }
    }
}

/// What a path leads to.
#[derive(Clone, Copy, Debug, PartialEq, Eq, Structural)]
pub enum FileType {
    File,
    Directory,
    Symlink,
}

/// What a file is opened for.
#[derive(Clone, Copy, Debug, PartialEq, Eq, Structural)]
pub enum OpenMode {
    ReadOnly,
    WriteOnly,
    ReadWrite,
    Create,
}

/// An open file, as its provider names it.
#[derive(Debug, PartialEq, Eq)]
pub struct FileHandle(pub Vec<u8>);

/// What is known of a file.
#[derive(Clone, Copy, Debug, PartialEq, Eq, Structural)]
pub struct FileAttributes {
    pub file_type: FileType,
    pub size: u64,
    pub mtime: i64,
    pub atime: i64,
    pub ctime: i64,
    pub mode: u32,
    pub uid: u32,
    pub gid: u32,
    pub nlink: u32,
}

/// One entry of a directory.
#[derive(Debug, PartialEq, Eq)]
pub struct DirEntry {
    pub name: String,
    pub file_type: FileType,
}

/// What an error says begins with its sort and ends with its own words; a quota
/// has no words of its own.
pub proof fn errors_say_their_sort_and_words(e: StorageError)
    ensures
        e matches StorageError::NotFound(m) ==> e.message() == "Not found: "@ + m@,
        e matches StorageError::FileNotFound(m) ==> e.message() == "File not found: "@ + m@,
        e matches StorageError::PermissionDenied(m) ==> e.message() == "Permission denied: "@ + m@,
        e matches StorageError::AlreadyExists(m) ==> e.message() == "Already exists: "@ + m@,
        e is QuotaExceeded ==> e.message() == "quota exceeded"@,
        e matches StorageError::Unavailable(m) ==> e.message() == "Unavailable: "@ + m@,
        e matches StorageError::InvalidPath(m) ==> e.message() == "Invalid path: "@ + m@,
        e matches StorageError::Serialization(m) ==> e.message() == "Serialization error: "@ + m@,
        e matches StorageError::Unknown(m) ==> e.message() == "Unknown error: "@ + m@,
{
}

/// An error is of one sort with one text, and of no other.
pub proof fn errors_are_of_one_sort(e: StorageError, words: Seq<char>)
    ensures
        e.is_not_found(words) <==> e is NotFound && e->NotFound_0@ == words,
        e.is_file_not_found(words) <==> e is FileNotFound && e->FileNotFound_0@ == words,
        e.is_invalid_path(words) <==> e is InvalidPath && e->InvalidPath_0@ == words,
        e.is_unavailable(words) <==> e is Unavailable && e->Unavailable_0@ == words,
        e.is_serialization(words) <==> e is Serialization && e->Serialization_0@ == words,
        e.is_unknown(words) <==> e is Unknown && e->Unknown_0@ == words,
{
}

} // verus!
