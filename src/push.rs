//! Pushing with a bounded number of attempts: a push that the remote rejects
//! as not fast-forward is followed by a pull with rebase and another attempt.
use vstd::prelude::*;
use vstd::string::*;
use crate::error::SyncError;
use crate::text::{concat, contains, has_infix};

verus! {

/// How many push attempts are made at most.
pub const MAX_PUSH_ATTEMPTS: usize = 3;

/// How one push attempt ended.
#[derive(Debug, Clone)]
pub enum PushOutcome {
    /// The remote acknowledged the branch update.
    Accepted,
    /// The remote refused an update that is not a fast-forward.
    NonFastForward,
    /// Any other failure; it is not retried.
    Failed { error: SyncError },
}

/// A push outcome, by kind.
#[derive(PartialEq, Eq, Structural)]
pub enum PushKind {
    Accepted,
    NonFastForward,
    Failed,
}

impl View for PushOutcome {
    type V = PushKind;

    open spec fn view(&self) -> PushKind {
        match self {
            PushOutcome::Accepted => PushKind::Accepted,
            PushOutcome::NonFastForward => PushKind::NonFastForward,
            PushOutcome::Failed { .. } => PushKind::Failed,
        }
    }
}

/// Whether an error text reports a rejected non-fast-forward update.
pub open spec fn names_non_fast_forward(message: Seq<char>) -> bool {
    has_infix(message, "NotFastForward"@) || has_infix(message, "non-fastforwardable"@)
}

/// Whether an error text reports a rejected non-fast-forward update.
pub fn is_non_fast_forward(message: &str) -> (r: bool)
    ensures
        r == names_non_fast_forward(message@),
{
    contains(message, "NotFastForward") || contains(message, "non-fastforwardable")
}

/// Classifies one push attempt. `transport_error` is the error of the push
/// call, if it failed, and `auth_rejected` whether that error came from
/// authentication; `ref_failure` is the status text the remote gave for the
/// branch, if it refused the update. A push counts as accepted only when the
/// call succeeded and the remote reported no failure for the branch.
pub fn classify_push(transport_error: Option<String>, auth_rejected: bool, ref_failure: Option<String>) -> (r: PushOutcome)
    ensures
        (transport_error is None && ref_failure is None) <==> r is Accepted,
        transport_error matches Some(m) ==> (if names_non_fast_forward(m@) {
            r is NonFastForward
        } else if auth_rejected {
            r matches PushOutcome::Failed { error: SyncError::Authentication { message } }
                && message == m
        } else {
            r matches PushOutcome::Failed { error: SyncError::Network { message } } && message == m
        }),
        transport_error is None ==> (ref_failure matches Some(m) ==> (if names_non_fast_forward(m@) {
            r is NonFastForward
        } else {
            r matches PushOutcome::Failed { error: SyncError::Network { message } } && message@
                == "push rejected: "@ + m@
        })),
{
    match transport_error {
        Some(m) => {
            if is_non_fast_forward(m.as_str()) {
                PushOutcome::NonFastForward
            } else if auth_rejected {
                PushOutcome::Failed { error: SyncError::Authentication { message: m } }
            } else {
                PushOutcome::Failed { error: SyncError::Network { message: m } }
            }
        },
        None => match ref_failure {
            Some(m) => {
                if is_non_fast_forward(m.as_str()) {
                    PushOutcome::NonFastForward
                } else {
                    PushOutcome::Failed { error: SyncError::Network { message: concat("push rejected: ", m.as_str()) } }
                }
            },
            None => PushOutcome::Accepted,
        },
    }
}

/// What the caller does after an attempt.
#[derive(Debug, Clone)]
pub enum PushDecision {
    /// The push succeeded.
    Done,
    /// Pull with rebase, then push again.
    RebaseAndRetry,
    /// Stop with this error.
    GiveUp { error: SyncError },
}

/// A push in progress.
#[derive(Debug, Clone)]
pub struct PushRetry {
    /// Attempts made so far.
    pub attempts: usize,
    /// Whether the push has ended.
    pub finished: bool,
    /// Whether it ended in success.
    pub succeeded: bool,
}

/// A push in progress, as values.
pub struct PushState {
    pub attempts: nat,
    pub finished: bool,
    pub succeeded: bool,
}

impl View for PushRetry {
    type V = PushState;

    open spec fn view(&self) -> PushState {
        PushState { attempts: self.attempts as nat, finished: self.finished, succeeded: self.succeeded }
    }
}

/// The state after one attempt; a rejection after which a rebase succeeded
/// leaves the push open while attempts remain.
pub open spec fn push_step(s: PushState, o: PushKind) -> PushState {
    if s.finished {
        s
    } else {
        match o {
            PushKind::Accepted => PushState { attempts: s.attempts + 1, finished: true, succeeded: true },
            PushKind::NonFastForward => PushState {
                attempts: s.attempts + 1,
                finished: s.attempts + 1 >= MAX_PUSH_ATTEMPTS,
                succeeded: false,
            },
            PushKind::Failed => PushState { attempts: s.attempts + 1, finished: true, succeeded: false },
        }
    }
}

/// The state after a sequence of attempts, each rejection followed by a rebase
/// that succeeded.
pub open spec fn push_run(s: PushState, outcomes: Seq<PushKind>) -> PushState
    decreases outcomes.len(),
{
    if outcomes.len() == 0 {
        s
    } else {
        push_run(push_step(s, outcomes[0]), outcomes.drop_first())
    }
}

/// Whether, with `left` attempts allowed, some attempt is accepted after only
/// non-fast-forward rejections.
pub open spec fn accepted_within(outcomes: Seq<PushKind>, left: nat) -> bool
    decreases outcomes.len(),
{
    if outcomes.len() == 0 || left == 0 {
        false
    } else {
        match outcomes[0] {
            PushKind::Accepted => true,
            PushKind::NonFastForward => accepted_within(outcomes.drop_first(), (left - 1) as nat),
            PushKind::Failed => false,
        }
    }
}

impl PushRetry {
    /// The push's invariant: attempts stay within the bound, an open push has
    /// attempts left, and only a finished push can have succeeded.
    pub open spec fn wf(&self) -> bool {
        &&& self.attempts <= MAX_PUSH_ATTEMPTS
        &&& self.attempts < MAX_PUSH_ATTEMPTS || self.finished
        &&& self.succeeded ==> self.finished
    }

    /// A push with no attempt made.
    pub fn new() -> (r: PushRetry)
        ensures
            r.wf(),
            r@ == (PushState { attempts: 0, finished: false, succeeded: false }),
    {
        PushRetry { attempts: 0, finished: false, succeeded: false }
    }

    /// Records one attempt and says what to do next.
    pub fn observe(&mut self, outcome: PushOutcome) -> (d: PushDecision)
        requires
            old(self).wf(),
        ensures
            final(self).wf(),
            final(self)@ == push_step(old(self)@, outcome@),
            !old(self).finished ==> (d is Done <==> final(self).succeeded),
            !old(self).finished ==> (d is RebaseAndRetry <==> !final(self).finished),
            !old(self).finished ==> (outcome matches PushOutcome::Failed { error } ==> (d matches PushDecision::GiveUp { error: e } && e == error)),
            old(self).finished ==> d is GiveUp,
    {
        if self.finished {
            return PushDecision::GiveUp {
                error: SyncError::RepositoryState { message: String::from_str("push already finished") },
            };
        }
        self.attempts = self.attempts + 1;
        match outcome {
            PushOutcome::Accepted => {
                self.finished = true;
                self.succeeded = true;
                PushDecision::Done
            },
            PushOutcome::NonFastForward => {
                if self.attempts >= MAX_PUSH_ATTEMPTS {
                    self.finished = true;
                    PushDecision::GiveUp {
                        error: SyncError::Network {
                            message: String::from_str("push rejected as non-fast-forward after every attempt"),
                        },
                    }
                } else {
                    PushDecision::RebaseAndRetry
                }
            },
            PushOutcome::Failed { error } => {
                self.finished = true;
                PushDecision::GiveUp { error }
            },
        }
    }

    /// Records that the rebase before a retry failed; the push ends with that error.
    pub fn rebase_failed(&mut self, error: SyncError) -> (e: SyncError)
        requires
            old(self).wf(),
        ensures
            final(self).wf(),
            final(self).attempts == old(self).attempts,
            final(self).finished,
            final(self).succeeded == (old(self).finished && old(self).succeeded),
            e == error,
    {
        if !self.finished {
            self.finished = true;
            self.succeeded = false;
        }
        error
    }
}

/// Attempts never exceed the bound, and a push succeeds exactly when an
/// attempt within the bound is accepted after only non-fast-forward
/// rejections (each followed by a rebase that succeeded).
pub proof fn lemma_push_bound(s: PushState, outcomes: Seq<PushKind>)
    requires
        !s.finished,
        !s.succeeded,
        s.attempts < MAX_PUSH_ATTEMPTS,
    ensures
        push_run(s, outcomes).attempts <= MAX_PUSH_ATTEMPTS,
        push_run(s, outcomes).succeeded == accepted_within(outcomes, (MAX_PUSH_ATTEMPTS - s.attempts) as nat),
    decreases outcomes.len(),
{
    if outcomes.len() > 0 {
        let t = push_step(s, outcomes[0]);
        assert(push_run(s, outcomes) == push_run(t, outcomes.drop_first()));
        let left = (MAX_PUSH_ATTEMPTS - s.attempts) as nat;
        if outcomes[0] == PushKind::NonFastForward {
            assert(accepted_within(outcomes, left) == accepted_within(outcomes.drop_first(), (left - 1) as nat));
            if t.finished {
                assert(left - 1 == 0);
                assert(!accepted_within(outcomes.drop_first(), 0));
            }
        }
        if t.finished {
            lemma_push_finished(t, outcomes.drop_first());
        } else {
            lemma_push_bound(t, outcomes.drop_first());
        }
    }
}

/// A finished push stays as it is.
pub proof fn lemma_push_finished(s: PushState, outcomes: Seq<PushKind>)
    requires
        s.finished,
    ensures
        push_run(s, outcomes) == s,
    decreases outcomes.len(),
{
    if outcomes.len() > 0 {
        lemma_push_finished(push_step(s, outcomes[0]), outcomes.drop_first());
    }
}

/// Two rejections and then an acceptance end in success; three rejections
/// end in failure, with the push finished.
pub proof fn lemma_push_retry_outcomes()
    ensures
        ({
            let s = PushState { attempts: 0, finished: false, succeeded: false };
            let ok = push_run(s, seq![PushKind::NonFastForward, PushKind::NonFastForward, PushKind::Accepted]);
            let bad = push_run(s, seq![PushKind::NonFastForward, PushKind::NonFastForward, PushKind::NonFastForward]);
            &&& ok.finished && ok.succeeded
            &&& bad.finished && !bad.succeeded && bad.attempts == MAX_PUSH_ATTEMPTS
        }),
{
    reveal_with_fuel(push_run, 4);
    let s = PushState { attempts: 0, finished: false, succeeded: false };
    let a = seq![PushKind::NonFastForward, PushKind::NonFastForward, PushKind::Accepted];
    let b = seq![PushKind::NonFastForward, PushKind::NonFastForward, PushKind::NonFastForward];
    assert(a.drop_first() =~= seq![PushKind::NonFastForward, PushKind::Accepted]);
    assert(a.drop_first().drop_first() =~= seq![PushKind::Accepted]);
    assert(a.drop_first().drop_first().drop_first() =~= Seq::<PushKind>::empty());
    assert(b.drop_first() =~= seq![PushKind::NonFastForward, PushKind::NonFastForward]);
    assert(b.drop_first().drop_first() =~= seq![PushKind::NonFastForward]);
    assert(b.drop_first().drop_first().drop_first() =~= Seq::<PushKind>::empty());
}

} // verus!
