//! Rebase by replay: local commits are re-applied, oldest first, on top of
//! the remote tip, and the branch is moved only once every one of them has
//! applied cleanly.
//!
//! The machine decides; the caller does the repository work. It asks
//! [`Replay::next_action`], performs it (a three-way tree merge and a commit,
//! a branch update, or an abort), and reports each merge with
//! [`Replay::record`].
use vstd::prelude::*;
use vstd::string::*;
use crate::error::SyncError;
use crate::text::concat;

verus! {

/// How one replayed commit merged onto the current tip.
#[derive(Debug, Clone)]
pub enum MergeOutcome {
    /// The merge was clean; the commit written for it.
    Clean { new_commit: String },
    /// The merge index had conflicts, on these paths.
    Conflict { paths: Vec<String> },
}

impl View for MergeOutcome {
    type V = Option<Seq<char>>;

    /// The new commit of a clean merge; `None` for a conflict.
    open spec fn view(&self) -> Option<Seq<char>> {
        match self {
            MergeOutcome::Clean { new_commit } => Some(new_commit@),
            MergeOutcome::Conflict { .. } => None,
        }
    }
}

/// What the caller does next.
#[derive(Debug, Clone)]
pub enum ReplayAction {
    /// Three-way merge with the tree of `commit`'s first parent as base, the
    /// tree of `parent` as ours and the tree of `commit` as theirs; when it
    /// is clean, write a commit of the merged tree with `commit`'s author and
    /// message whose single parent is `parent`, and report it.
    Replay { commit: String, parent: String },
    /// Point `reference` at `target`, HEAD at `reference`, and check out.
    UpdateBranch { reference: String, target: String },
    /// Point HEAD back at `reference`, which was never moved, and check out.
    Abort { reference: String, commit: String },
}

/// A rebase in progress.
#[derive(Debug, Clone)]
pub struct Replay {
    /// The short name of the branch being rebased.
    pub branch: String,
    /// The commit the local commits are replayed onto.
    pub onto: String,
    /// The local commits to replay, oldest first.
    pub commits: Vec<String>,
    /// The commit the next replay is parented on.
    pub tip: String,
    /// How many commits have been replayed.
    pub next: usize,
    /// The commits written so far, in order.
    pub created: Vec<String>,
    /// Whether a conflict stopped the rebase.
    pub aborted: bool,
    /// The paths of the conflict that stopped the rebase.
    pub conflict_paths: Vec<String>,
}

/// A rebase in progress, as values.
pub struct ReplayView {
    pub branch: Seq<char>,
    pub onto: Seq<char>,
    pub commits: Seq<Seq<char>>,
    pub tip: Seq<char>,
    pub next: nat,
    pub created: Seq<Seq<char>>,
    pub aborted: bool,
}

/// The views of a vector of strings.
pub open spec fn views(v: Seq<String>) -> Seq<Seq<char>> {
    v.map_values(|s: String| s@)
}

impl View for Replay {
    type V = ReplayView;

    open spec fn view(&self) -> ReplayView {
        ReplayView {
            branch: self.branch@,
            onto: self.onto@,
            commits: views(self.commits@),
            tip: self.tip@,
            next: self.next as nat,
            created: views(self.created@),
            aborted: self.aborted,
        }
    }
}

/// The full name of a local branch.
pub open spec fn branch_ref_spec(branch: Seq<char>) -> Seq<char> {
    "refs/heads/"@ + branch
}

/// A rebase of `local` (newest first, as a history walk lists them) onto `onto`.
pub open spec fn start_spec(branch: Seq<char>, onto: Seq<char>, local: Seq<Seq<char>>) -> ReplayView {
    ReplayView {
        branch,
        onto,
        commits: local.reverse(),
        tip: onto,
        next: 0,
        created: Seq::empty(),
        aborted: false,
    }
}

/// Whether every commit has been replayed.
pub open spec fn finished(v: ReplayView) -> bool {
    !v.aborted && v.next >= v.commits.len()
}

/// The state after one merge outcome is reported.
pub open spec fn step(v: ReplayView, outcome: Option<Seq<char>>) -> ReplayView {
    if v.aborted || v.next >= v.commits.len() {
        v
    } else {
        match outcome {
            Some(c) => ReplayView { tip: c, next: v.next + 1, created: v.created.push(c), ..v },
            None => ReplayView { aborted: true, ..v },
        }
    }
}

/// The state after a sequence of merge outcomes is reported.
pub open spec fn run(v: ReplayView, outcomes: Seq<Option<Seq<char>>>) -> ReplayView
    decreases outcomes.len(),
{
    if outcomes.len() == 0 {
        v
    } else {
        run(step(v, outcomes[0]), outcomes.drop_first())
    }
}

/// Where the branch points once the machine has been driven to its end: the
/// final tip when every commit replayed, its old target otherwise.
pub open spec fn branch_after(v: ReplayView, prior: Seq<char>) -> Seq<char> {
    if finished(v) {
        v.tip
    } else {
        prior
    }
}

/// Clean outcomes that wrote the given commits.
pub open spec fn clean_outcomes(ids: Seq<Seq<char>>) -> Seq<Option<Seq<char>>> {
    ids.map_values(|c: Seq<char>| Some(c))
}

/// The tip after replaying commits that became `ids`, starting from `tip`.
pub open spec fn tip_after(tip: Seq<char>, ids: Seq<Seq<char>>) -> Seq<char> {
    if ids.len() == 0 {
        tip
    } else {
        ids.last()
    }
}

impl Replay {
    /// Starts a rebase of `local` onto `onto`; `local` lists the commits
    /// reachable from the local head but not from the merge base, newest first.
    pub fn start(branch: String, onto: String, local: Vec<String>) -> (r: Replay)
        ensures
            r@ == start_spec(branch@, onto@, views(local@)),
            r.conflict_paths@.len() == 0,
    {
        let mut commits: Vec<String> = Vec::new();
        let mut i: usize = local.len();
        while i > 0
            invariant
                i <= local@.len(),
                views(commits@) =~= views(local@).subrange(i as int, local@.len() as int).reverse(),
            decreases i,
        {
            i = i - 1;
            commits.push(local[i].clone());
            proof {
                assert(views(local@).subrange(i as int, local@.len() as int).reverse() =~= views(
                    local@,
                ).subrange(i as int + 1, local@.len() as int).reverse().push(views(local@)[i as int]));
            }
        }
        proof {
            assert(views(local@).subrange(0, local@.len() as int) =~= views(local@));
        }
        let tip = onto.clone();
        let created: Vec<String> = Vec::new();
        proof {
            assert(views(created@) =~= Seq::<Seq<char>>::empty());
        }
        Replay {
            branch,
            onto,
            commits,
            tip,
            next: 0,
            created,
            aborted: false,
            conflict_paths: Vec::new(),
        }
    }

    /// The full name of the branch being rebased.
    pub fn branch_ref(&self) -> (r: String)
        ensures
            r@ == branch_ref_spec(self.branch@),
    {
        concat("refs/heads/", self.branch.as_str())
    }

    /// The machine's invariant: it never replays past the end, an abort
    /// names the commit that conflicted, and one commit is written per replay.
    pub open spec fn wf(&self) -> bool {
        &&& self.next <= self.commits@.len()
        &&& self.aborted ==> self.next < self.commits@.len()
        &&& self.created@.len() == self.next
    }

    /// What the caller does next.
    pub fn next_action(&self) -> (r: ReplayAction)
        requires
            self.wf(),
        ensures
            !self.aborted && self.next < self.commits@.len() ==> (r matches ReplayAction::Replay {
                commit,
                parent,
            } && commit@ == self@.commits[self.next as int] && parent@ == self.tip@),
            finished(self@) ==> (r matches ReplayAction::UpdateBranch { reference, target }
                && reference@ == branch_ref_spec(self.branch@) && target@ == self.tip@),
            self.aborted ==> (r matches ReplayAction::Abort { reference, commit } && reference@
                == branch_ref_spec(self.branch@) && commit@ == self@.commits[self.next as int]),
    {
        if self.aborted {
            ReplayAction::Abort { reference: self.branch_ref(), commit: self.commits[self.next].clone() }
        } else if self.next < self.commits.len() {
            ReplayAction::Replay { commit: self.commits[self.next].clone(), parent: self.tip.clone() }
        } else {
            ReplayAction::UpdateBranch { reference: self.branch_ref(), target: self.tip.clone() }
        }
    }

    /// Reports how the last requested replay merged.
    pub fn record(&mut self, outcome: MergeOutcome)
        requires
            old(self).wf(),
        ensures
            final(self).wf(),
            final(self)@ == step(old(self)@, outcome@),
            final(self).aborted && !old(self).aborted ==> (outcome matches MergeOutcome::Conflict {
                paths,
            } && final(self).conflict_paths == paths),
    {
        if self.aborted || self.next >= self.commits.len() {
            return;
        }
        match outcome {
            MergeOutcome::Clean { new_commit } => {
                let ghost before = self.created@;
                self.tip = new_commit.clone();
                self.created.push(new_commit);
                self.next = self.next + 1;
                proof {
                    assert(views(self.created@) =~= views(before).push(self.tip@));
                }
            },
            MergeOutcome::Conflict { paths } => {
                self.aborted = true;
                self.conflict_paths = paths;
            },
        }
    }

    /// The result of a rebase driven to its end: the new tip, or the conflict
    /// that stopped it.
    pub fn outcome(&self) -> (r: Result<String, SyncError>)
        requires
            self.wf(),
        ensures
            finished(self@) ==> (r matches Ok(t) && t@ == self.tip@),
            self.aborted ==> (r matches Err(SyncError::Conflict { commit, paths }) && commit@
                == self@.commits[self.next as int] && views(paths@) == views(self.conflict_paths@)),
            !finished(self@) && !self.aborted ==> (r matches Err(SyncError::RepositoryState { .. })),
    {
        if self.aborted {
            let paths = self.conflict_paths.clone();
            proof {
                assert(views(paths@) =~= views(self.conflict_paths@));
            }
            Err(SyncError::Conflict { commit: self.commits[self.next].clone(), paths })
        } else if self.next >= self.commits.len() {
            Ok(self.tip.clone())
        } else {
            Err(SyncError::RepositoryState { message: String::from_str("rebase still in progress") })
        }
    }
}

/// Once a rebase has stopped, no further outcome changes it.
pub proof fn lemma_run_aborted(v: ReplayView, outcomes: Seq<Option<Seq<char>>>)
    requires
        v.aborted,
    ensures
        run(v, outcomes) == v,
    decreases outcomes.len(),
{
    if outcomes.len() > 0 {
        lemma_run_aborted(step(v, outcomes[0]), outcomes.drop_first());
    }
}

/// Clean outcomes advance the rebase one commit each, appending the written
/// commits and moving the tip to the last of them.
pub proof fn lemma_run_clean(v: ReplayView, ids: Seq<Seq<char>>)
    requires
        !v.aborted,
        v.next + ids.len() <= v.commits.len(),
    ensures
        run(v, clean_outcomes(ids)) == (ReplayView {
            tip: tip_after(v.tip, ids),
            next: v.next + ids.len(),
            created: v.created + ids,
            ..v
        }),
    decreases ids.len(),
{
    if ids.len() == 0 {
        assert(v.created + ids =~= v.created);
    } else {
        let w = step(v, Some(ids[0]));
        assert(clean_outcomes(ids)[0] == Some(ids[0]));
        assert(clean_outcomes(ids).drop_first() =~= clean_outcomes(ids.drop_first()));
        lemma_run_clean(w, ids.drop_first());
        assert(w.created + ids.drop_first() =~= v.created + ids);
        if ids.len() > 1 {
            assert(ids.drop_first().last() == ids.last());
        }
    }
}

/// Replaying n local commits with no conflict writes exactly n commits, the
/// k-th of them replaying the k-th oldest local commit on top of the one
/// before it (the first on top of the remote tip), and the branch ends at the
/// last one.
pub proof fn lemma_replay_clean(
    branch: Seq<char>,
    onto: Seq<char>,
    local: Seq<Seq<char>>,
    ids: Seq<Seq<char>>,
    prior: Seq<char>,
)
    requires
        ids.len() == local.len(),
    ensures
        ({
            let s = start_spec(branch, onto, local);
            let e = run(s, clean_outcomes(ids));
            &&& e.created == ids
            &&& finished(e)
            &&& branch_after(e, prior) == tip_after(onto, ids)
            &&& forall|k: int|
                0 <= k < ids.len() ==> {
                    let before = #[trigger] run(s, clean_outcomes(ids.take(k)));
                    &&& !before.aborted
                    &&& before.next == k
                    &&& before.commits[k] == local[local.len() - 1 - k]
                    &&& before.tip == tip_after(onto, ids.take(k))
                }
        }),
{
    let s = start_spec(branch, onto, local);
    lemma_run_clean(s, ids);
    assert(Seq::<Seq<char>>::empty() + ids =~= ids);
    assert forall|k: int| 0 <= k < ids.len() implies {
        let before = #[trigger] run(s, clean_outcomes(ids.take(k)));
        &&& !before.aborted
        &&& before.next == k
        &&& before.commits[k] == local[local.len() - 1 - k]
        &&& before.tip == tip_after(onto, ids.take(k))
    } by {
        lemma_run_clean(s, ids.take(k));
    }
}

/// A conflict stops the rebase: whatever is reported afterwards, the machine
/// ends aborted, and the branch keeps the target it had before the rebase.
pub proof fn lemma_replay_conflict(
    branch: Seq<char>,
    onto: Seq<char>,
    local: Seq<Seq<char>>,
    ids: Seq<Seq<char>>,
    rest: Seq<Option<Seq<char>>>,
    prior: Seq<char>,
)
    requires
        ids.len() < local.len(),
    ensures
        ({
            let e = run(start_spec(branch, onto, local), clean_outcomes(ids) + seq![None] + rest);
            &&& e.aborted
            &&& !finished(e)
            &&& branch_after(e, prior) == prior
        }),
{
    let s = start_spec(branch, onto, local);
    lemma_run_clean(s, ids);
    lemma_run_concat(s, clean_outcomes(ids), seq![None] + rest);
    let m = run(s, clean_outcomes(ids));
    let tail = seq![None] + rest;
    assert(tail[0] == None::<Seq<char>>);
    assert(tail.drop_first() =~= rest);
    lemma_run_aborted(step(m, None), rest);
    assert((clean_outcomes(ids) + seq![None]) + rest =~= clean_outcomes(ids) + (seq![None] + rest));
}

/// Reporting two sequences of outcomes one after the other.
pub proof fn lemma_run_concat(v: ReplayView, a: Seq<Option<Seq<char>>>, b: Seq<Option<Seq<char>>>)
    ensures
        run(v, a + b) == run(run(v, a), b),
    decreases a.len(),
{
    if a.len() == 0 {
        assert(a + b =~= b);
    } else {
        assert((a + b).drop_first() =~= a.drop_first() + b);
        assert((a + b)[0] == a[0]);
        lemma_run_concat(step(v, a[0]), a.drop_first(), b);
    }
}

} // verus!
