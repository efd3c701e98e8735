//! How a pull proceeds once the remote branch has been fetched: nothing to
//! do, a fast-forward, a rebase, or a three-way merge.
use vstd::prelude::*;
use vstd::string::*;
use crate::error::SyncError;
use crate::replay::views;
use crate::text::concat;

verus! {

/// How local commits that the remote lacks are reconciled with it.
#[derive(Debug, Clone, Copy, PartialEq, Eq, Structural)]
pub enum PullMode {
    /// Create a merge commit.
    Merge,
    /// Replay the local commits on top of the remote tip.
    Rebase,
}

/// The remote tracking branch after a fetch, and how the local head stands to it.
#[derive(Debug, Clone)]
pub struct RemoteTip {
    /// The commit `origin/<branch>` points at.
    pub id: String,
    /// Commits reachable from the local head but not from the remote tip.
    pub ahead: usize,
    /// Commits reachable from the remote tip but not from the local head.
    pub behind: usize,
}

/// What a pull does.
#[derive(Debug, Clone)]
pub enum PullPlan {
    /// The local branch already contains the remote tip.
    UpToDate,
    /// Move `reference` and HEAD to `target` and check out; no commit is written.
    FastForward { reference: String, target: String },
    /// Replay the local commits onto `onto`.
    Rebase { onto: String },
    /// Three-way merge the local head with `remote`.
    Merge { remote: String },
}

/// A pull, as values.
pub enum PullView {
    UpToDate,
    FastForward { reference: Seq<char>, target: Seq<char> },
    Rebase { onto: Seq<char> },
    Merge { remote: Seq<char> },
}

impl View for PullPlan {
    type V = PullView;

    open spec fn view(&self) -> PullView {
        match self {
            PullPlan::UpToDate => PullView::UpToDate,
            PullPlan::FastForward { reference, target } => PullView::FastForward {
                reference: reference@,
                target: target@,
            },
            PullPlan::Rebase { onto } => PullView::Rebase { onto: onto@ },
            PullPlan::Merge { remote } => PullView::Merge { remote: remote@ },
        }
    }
}

/// The name of the remote tracking branch of `branch`.
pub open spec fn remote_branch_spec(branch: Seq<char>) -> Seq<char> {
    "origin/"@ + branch
}

/// The pull for a branch, given how it stands to its remote.
pub open spec fn pull_spec(branch: Seq<char>, ahead: nat, behind: nat, remote: Seq<char>, mode: PullMode) -> PullView {
    if behind == 0 {
        PullView::UpToDate
    } else if ahead == 0 {
        PullView::FastForward { reference: "refs/heads/"@ + branch, target: remote }
    } else if mode == PullMode::Rebase {
        PullView::Rebase { onto: remote }
    } else {
        PullView::Merge { remote }
    }
}

/// Where the local head ends after a pull that succeeds, when it started at `head`
/// and the rebase or merge wrote `written` as its last commit.
pub open spec fn head_after(plan: PullView, head: Seq<char>, written: Seq<char>) -> Seq<char> {
    match plan {
        PullView::UpToDate => head,
        PullView::FastForward { target, .. } => target,
        _ => written,
    }
}

/// How many commits a pull that succeeds writes, with `ahead` local commits.
pub open spec fn commits_written(plan: PullView, ahead: nat) -> nat {
    match plan {
        PullView::UpToDate => 0,
        PullView::FastForward { .. } => 0,
        PullView::Rebase { .. } => ahead,
        PullView::Merge { .. } => 1,
    }
}

/// The name of the remote tracking branch of `branch`.
pub fn remote_branch_name(branch: &str) -> (r: String)
    ensures
        r@ == remote_branch_spec(branch@),
{
    concat("origin/", branch)
}

/// Decides how to pull `branch`; `remote` is `None` when the fetch left no
/// remote tracking branch, which is an error.
pub fn plan_pull(branch: &str, remote: Option<RemoteTip>, mode: PullMode) -> (r: Result<PullPlan, SyncError>)
    ensures
        remote is None <==> r is Err,
        r is Err ==> (r matches Err(SyncError::RepositoryState { .. })),
        remote matches Some(t) ==> (r matches Ok(p) && p@ == pull_spec(
            branch@,
            t.ahead as nat,
            t.behind as nat,
            t.id@,
            mode,
        )),
{
    match remote {
        None => {
            let name = remote_branch_name(branch);
            Err(SyncError::RepositoryState { message: concat("remote branch not found: ", name.as_str()) })
        },
        Some(t) => {
            if t.behind == 0 {
                Ok(PullPlan::UpToDate)
            } else if t.ahead == 0 {
                Ok(PullPlan::FastForward { reference: concat("refs/heads/", branch), target: t.id })
            } else {
                match mode {
                    PullMode::Rebase => Ok(PullPlan::Rebase { onto: t.id }),
                    PullMode::Merge => Ok(PullPlan::Merge { remote: t.id }),
                }
            }
        },
    }
}

/// A merge commit to write.
#[derive(Debug, Clone)]
pub struct MergeCommit {
    /// The local head first, then the remote tip.
    pub parents: Vec<String>,
    pub message: String,
}

/// The message of the merge commit for `branch`.
pub open spec fn merge_message_spec(branch: Seq<char>) -> Seq<char> {
    "Merge remote changes from "@ + branch
}

/// Decides what follows a three-way merge of `local` and `remote`: a merge
/// commit with both as parents when no path conflicted, a conflict otherwise.
pub fn plan_merge_commit(branch: &str, local: &str, remote: &str, conflicts: Vec<String>) -> (r: Result<MergeCommit, SyncError>)
    ensures
        conflicts@.len() == 0 <==> r is Ok,
        r matches Ok(m) ==> views(m.parents@) == seq![local@, remote@] && m.message@
            == merge_message_spec(branch@),
        r matches Err(e) ==> (e matches SyncError::Conflict { commit, paths } && commit@ == remote@
            && paths == conflicts),
{
    if conflicts.len() == 0 {
        let mut parents: Vec<String> = Vec::new();
        parents.push(String::from_str(local));
        parents.push(String::from_str(remote));
        proof {
            assert(views(parents@) =~= seq![local@, remote@]);
        }
        Ok(MergeCommit { parents, message: concat("Merge remote changes from ", branch) })
    } else {
        Err(SyncError::Conflict { commit: String::from_str(remote), paths: conflicts })
    }
}

/// When the local branch is strictly behind its remote, a pull moves the
/// head to exactly the remote tip and writes no commit, whichever mode.
pub proof fn lemma_fast_forward(branch: Seq<char>, behind: nat, remote: Seq<char>, head: Seq<char>, written: Seq<char>, mode: PullMode)
    requires
        behind > 0,
    ensures
        pull_spec(branch, 0, behind, remote, mode) is FastForward,
        head_after(pull_spec(branch, 0, behind, remote, mode), head, written) == remote,
        commits_written(pull_spec(branch, 0, behind, remote, mode), 0) == 0,
{
}

} // verus!
