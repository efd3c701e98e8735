//! The engine's entry point: the data directory and its remote settings, the
//! names it derives from them, and the outcome of a full synchronisation.
use vstd::prelude::*;
use vstd::string::*;
use crate::changes::{diff_views, SyncDiff};
use crate::config::GitSyncConfig;
use crate::error::SyncError;
use crate::pull::{remote_branch_name, remote_branch_spec};
use crate::text::{concat, join_path, path_join};

verus! {

/// The outcome of a full synchronisation.
#[derive(Debug, Clone)]
pub struct SyncResult {
    pub success: bool,
    pub message: String,
    /// The changed paths when a conflict stopped the synchronisation.
    pub conflicts: Option<Vec<SyncDiff>>,
    /// Local commits pushed.
    pub changes_pushed: usize,
    /// Remote commits pulled; not counted, always zero.
    pub changes_pulled: usize,
}

/// The name of the scratch directory a clone goes to before its merge into
/// the data directory.
pub const SCRATCH_CLONE_DIR: &'static str = ".tmp_clone";

/// The engine for one data directory.
#[derive(Debug, Clone)]
pub struct GitSyncManager {
    pub repo_path: String,
    pub config: GitSyncConfig,
}

impl GitSyncManager {
    /// The engine for the repository at `repo_path`.
    pub fn new(repo_path: String, config: GitSyncConfig) -> (r: GitSyncManager)
        ensures
            r.repo_path == repo_path,
            r.config == config,
    {
        GitSyncManager { repo_path, config }
    }

    /// When the last synchronisation happened; it is not recorded, so never known.
    pub fn get_last_sync_time(&self) -> (r: Option<String>)
        ensures
            r is None,
    {
        None
    }

    /// The remote tracking branch of the configured branch.
    pub fn remote_branch(&self) -> (r: String)
        ensures
            r@ == remote_branch_spec(self.config.branch@),
    {
        remote_branch_name(self.config.branch.as_str())
    }

    /// The full name of the configured local branch.
    pub fn local_branch_ref(&self) -> (r: String)
        ensures
            r@ == "refs/heads/"@ + self.config.branch@,
    {
        concat("refs/heads/", self.config.branch.as_str())
    }

    /// The refspec that pushes the configured branch to the branch of the same name.
    pub fn push_refspec(&self) -> (r: String)
        ensures
            r@ == "refs/heads/"@ + self.config.branch@ + ":refs/heads/"@ + self.config.branch@,
    {
        let mut s = concat("refs/heads/", self.config.branch.as_str());
        s.append(":refs/heads/");
        s.append(self.config.branch.as_str());
        s
    }

    /// The repository metadata directory.
    pub fn git_dir(&self) -> (r: String)
        ensures
            r@ == path_join(self.repo_path@, ".git"@),
    {
        join_path(self.repo_path.as_str(), ".git")
    }

    /// The scratch directory a clone goes to.
    pub fn scratch_clone_dir(&self) -> (r: String)
        ensures
            r@ == path_join(self.repo_path@, SCRATCH_CLONE_DIR@),
    {
        join_path(self.repo_path.as_str(), SCRATCH_CLONE_DIR)
    }
}

/// The message of a synchronisation that completed.
pub open spec fn done_message() -> Seq<char> {
    "Sync completed"@
}

/// The message of a synchronisation stopped by a conflict.
pub open spec fn conflict_message() -> Seq<char> {
    "Conflicts detected; resolve them manually"@
}

/// The result of a synchronisation. `outcome` is the number of local commits
/// pushed, or why the pull or push failed; `changed` lists the working tree's
/// changes, reported as the conflicting paths when a conflict stopped it.
/// A conflict is never a success: it pushes and pulls nothing. Any other
/// failure is passed on.
pub fn finish_sync(outcome: Result<usize, SyncError>, changed: Vec<SyncDiff>) -> (r: Result<SyncResult, SyncError>)
    ensures
        outcome matches Ok(n) ==> (r matches Ok(s) && s.success && s.changes_pushed == n
            && s.changes_pulled == 0 && s.conflicts is None && s.message@ == done_message()),
        outcome matches Err(e) ==> (if e is Conflict {
            r matches Ok(s) && !s.success && s.changes_pushed == 0 && s.changes_pulled == 0
                && s.message@ == conflict_message() && (s.conflicts matches Some(c) && diff_views(c@)
                == diff_views(changed@))
        } else {
            r matches Err(f) && f == e
        }),
{
    match outcome {
        Ok(n) => Ok(SyncResult {
            success: true,
            message: String::from_str("Sync completed"),
            conflicts: None,
            changes_pushed: n,
            changes_pulled: 0,
        }),
        Err(e) => {
            if e.is_conflict() {
                Ok(SyncResult {
                    success: false,
                    message: String::from_str("Conflicts detected; resolve them manually"),
                    conflicts: Some(changed),
                    changes_pushed: 0,
                    changes_pulled: 0,
                })
            } else {
                Err(e)
            }
        },
    }
}

} // verus!
