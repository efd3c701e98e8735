//! Failures of the synchronisation engine, by kind.
use vstd::prelude::*;

verus! {

/// Why an engine operation failed.
#[derive(Debug, Clone)]
pub enum SyncError {
    /// The remote rejected the credentials, or none could be offered.
    Authentication { message: String },
    /// A fetch or push failed for a reason other than authentication.
    Network { message: String },
    /// A rebase or merge met overlapping changes; the paths involved.
    Conflict { commit: String, paths: Vec<String> },
    /// The repository lacks something the operation needs: a branch, a
    /// stash, a `.git` directory after cloning.
    RepositoryState { message: String },
    /// A filesystem operation failed.
    Io { message: String },
}

impl SyncError {
    /// Whether this is a conflict.
    pub fn is_conflict(&self) -> (r: bool)
        ensures
            r == (self is Conflict),
    {
        matches!(self, SyncError::Conflict { .. })
    }
}

} // verus!
