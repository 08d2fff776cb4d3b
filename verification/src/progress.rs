//! How far the ledger has come with the operations of one request.

use vstd::prelude::*;
use crate::error::LedgerError;
use crate::ledger::LedgerOp;

verus! {

/// The ledger's answers so far to the operations of one plan: how many it
/// has accepted, and the refusal that ended the request, if there was one.
#[derive(Clone, Copy, Debug, PartialEq, Eq)]
pub struct Progress {
    pub accepted: usize,
    pub failure: Option<LedgerError>,
}

impl Progress {
    /// Nothing has been asked of the ledger yet.
    pub open spec fn start() -> Progress {
        Progress { accepted: 0, failure: None }
    }

    /// Every operation of `plan` has been accepted.
    pub open spec fn complete(self, plan: Seq<LedgerOp>) -> bool {
        self.failure is None && self.accepted == plan.len()
    }

    /// The operation of `plan` that is due next. There is none once the
    /// ledger has refused an operation or accepted them all.
    pub open spec fn pending(self, plan: Seq<LedgerOp>) -> Option<LedgerOp> {
        if self.failure is None && self.accepted < plan.len() {
            Some(plan[self.accepted as int])
        } else {
            None
        }
    }

    /// The progress after the ledger's `reply` to the pending operation.
    /// Where none is pending, no reply is expected and nothing changes.
    pub open spec fn advance(self, plan: Seq<LedgerOp>, reply: Result<(), LedgerError>)
        -> Progress
    {
        if self.pending(plan) is None {
            self
        } else {
            match reply {
                Ok(_) => Progress { accepted: (self.accepted + 1) as usize, failure: None },
                Err(e) => Progress { accepted: self.accepted, failure: Some(e) },
            }
        }
    }

    /// The progress after a run of replies, taken in order.
    pub open spec fn run(self, plan: Seq<LedgerOp>, replies: Seq<Result<(), LedgerError>>)
        -> Progress
        decreases replies.len(),
    {
        if replies.len() == 0 {
            self
        } else {
            self.advance(plan, replies[0]).run(plan, replies.drop_first())
        }
    }

    /// The operation of `plan` that is due next.
    pub fn next_op(&self, plan: &Vec<LedgerOp>) -> (op: Option<LedgerOp>)
        ensures
            op == self.pending(plan@),
    {
        if self.failure.is_none() && self.accepted < plan.len() {
            Some(plan[self.accepted])
        } else {
            None
        }
    }

    /// Records the ledger's `reply` to the pending operation of `plan`.
    pub fn take_reply(self, plan: &Vec<LedgerOp>, reply: Result<(), LedgerError>)
        -> (after: Progress)
        ensures
            after == self.advance(plan@, reply),
    {
        if self.failure.is_none() && self.accepted < plan.len() {
            match reply {
                Ok(_) => Progress { accepted: self.accepted + 1, failure: None },
                Err(e) => Progress { accepted: self.accepted, failure: Some(e) },
            }
        } else {
            self
        }
    }
}

/// Where a run of replies leaves a plan that has not been started: the
/// ledger's acceptances are counted up to the first refusal, to the end of
/// the plan or to the end of the replies, whichever comes first. A refusal
/// that stopped the count is kept; replies past it, or past the end of the
/// plan, change nothing.
pub proof fn lemma_run_counts_to_first_refusal(
    plan: Seq<LedgerOp>,
    replies: Seq<Result<(), LedgerError>>,
)
    requires
        plan.len() <= usize::MAX,
    ensures
        ({
            let end = Progress::start().run(plan, replies);
            &&& end.accepted <= plan.len()
            &&& end.accepted <= replies.len()
            &&& forall|i: int| 0 <= i < end.accepted ==> (#[trigger] replies[i]) is Ok
            &&& match end.failure {
                Some(e) => end.accepted < plan.len() && end.accepted < replies.len()
                    && replies[end.accepted as int] == Err::<(), LedgerError>(e),
                None => end.accepted == plan.len() || end.accepted == replies.len(),
            }
        }),
{
    lemma_run_from(Progress::start(), plan, replies);
}

/// Every operation of the plan ends up accepted exactly when the ledger
/// accepted each of them in turn.
pub proof fn lemma_run_completes_iff_all_accepted(
    plan: Seq<LedgerOp>,
    replies: Seq<Result<(), LedgerError>>,
)
    requires
        plan.len() <= usize::MAX,
    ensures
        Progress::start().run(plan, replies).complete(plan) <==> replies.len() >= plan.len() && (
        forall|i: int| 0 <= i < plan.len() ==> (#[trigger] replies[i]) is Ok),
{
    lemma_run_counts_to_first_refusal(plan, replies);
}

/// The same count, from any progress that is still open.
proof fn lemma_run_from(from: Progress, plan: Seq<LedgerOp>, replies: Seq<Result<(), LedgerError>>)
    requires
        plan.len() <= usize::MAX,
        from.failure is None,
        from.accepted <= plan.len(),
    ensures
        ({
            let end = from.run(plan, replies);
            let counted = end.accepted - from.accepted;
            &&& from.accepted <= end.accepted <= plan.len()
            &&& counted <= replies.len()
            &&& forall|i: int| 0 <= i < counted ==> (#[trigger] replies[i]) is Ok
            &&& match end.failure {
                Some(e) => end.accepted < plan.len() && counted < replies.len() && replies[counted]
                    == Err::<(), LedgerError>(e),
                None => end.accepted == plan.len() || counted == replies.len(),
            }
        }),
    decreases replies.len(),
{
    if replies.len() > 0 {
        let next = from.advance(plan, replies[0]);
        let rest = replies.drop_first();
        if next.failure is None {
            lemma_run_from(next, plan, rest);
            let end = from.run(plan, replies);
            let counted = end.accepted - from.accepted;
            assert forall|i: int| 0 <= i < counted implies (#[trigger] replies[i]) is Ok by {
                if i > 0 {
                    assert(replies[i] == rest[i - 1]);
                }
            }
        } else {
            lemma_run_stays_aborted(next, plan, rest);
        }
    }
}

/// Once the ledger has refused an operation, no reply changes anything.
pub proof fn lemma_run_stays_aborted(
    from: Progress,
    plan: Seq<LedgerOp>,
    replies: Seq<Result<(), LedgerError>>,
)
    requires
        from.failure is Some,
    ensures
        from.run(plan, replies) == from,
    decreases replies.len(),
{
    if replies.len() > 0 {
        lemma_run_stays_aborted(from, plan, replies.drop_first());
    }
}

} // verus!
