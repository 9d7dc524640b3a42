//! The library's error taxonomy.
use vstd::prelude::*;

verus! {

/// Why an operation failed; each variant carries a readable message.
#[derive(Debug)]
pub enum CoreError {
    /// A home directory that cannot be resolved, an unsupported shell, or a
    /// malformed persisted value.
    Configuration(String),
    /// A download that failed or answered with a non-success status.
    Network(String),
    /// An archive that is corrupt or of an unsupported format.
    Archive(String),
    /// A file or directory that could not be read, created or written.
    Filesystem(String),
    /// A server id that the catalog does not list.
    NotFound(String),
}

impl CoreError {
    /// The readable message the error carries.
    pub fn message(&self) -> (r: &String)
        ensures
            *r == match self {
                CoreError::Configuration(m) => m,
                CoreError::Network(m) => m,
                CoreError::Archive(m) => m,
                CoreError::Filesystem(m) => m,
                CoreError::NotFound(m) => m,
            },
    {
        match self {
            CoreError::Configuration(m) => m,
            CoreError::Network(m) => m,
            CoreError::Archive(m) => m,
            CoreError::Filesystem(m) => m,
            CoreError::NotFound(m) => m,
        }
    }
}

} // verus!
