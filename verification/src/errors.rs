//! The error taxonomy of the engine.

use vstd::prelude::*;

verus! {

/// Every failure the engine reports to its callers.
///
/// `StorageError` and `InconsistentCatalog` carry the storage engine's own
/// message verbatim, so that operators see what the engine said.
#[derive(Debug, Clone, PartialEq, Eq)]
pub enum MooseError {
    /// Empty or malformed caller-supplied schema or payload.
    InvalidInput,
    /// A physical storage object with the requested name already exists.
    AlreadyExists,
    /// No collection with the given identifier or name.
    NotFound,
    /// A failure surfaced by the storage engine, message verbatim.
    StorageError(String),
    /// The catalog and physical storage disagree: one half of a two-step
    /// create or delete succeeded and the other failed.
    InconsistentCatalog(String),
}

impl MooseError {
    /// A short stable label for the error variant, for presentation.
    pub fn label(&self) -> (r: &'static str)
        ensures
            r@ == self.spec_label(),
    {
        proof {
            reveal_strlit("invalid input");
            reveal_strlit("already exists");
            reveal_strlit("not found");
            reveal_strlit("storage error");
            reveal_strlit("inconsistent catalog");
        }
        match self {
            MooseError::InvalidInput => "invalid input",
            MooseError::AlreadyExists => "already exists",
            MooseError::NotFound => "not found",
            MooseError::StorageError(_) => "storage error",
            MooseError::InconsistentCatalog(_) => "inconsistent catalog",
        }
    }

    pub open spec fn spec_label(&self) -> Seq<char> {
        match self {
            MooseError::InvalidInput => "invalid input"@,
            MooseError::AlreadyExists => "already exists"@,
            MooseError::NotFound => "not found"@,
            MooseError::StorageError(_) => "storage error"@,
            MooseError::InconsistentCatalog(_) => "inconsistent catalog"@,
        }
    }
}

} // verus!
