//! Claim rules: a payout is given to a worker by one conditional write that
//! succeeds only while every eligibility predicate holds, so of any number of
//! competing claims at most one applies.
use vstd::prelude::*;
use vstd::string::*;
use crate::events::{payouts_updated_from, ServerEvent};
use crate::status::PayoutStatus;
use crate::text::{is_blank, trim_of};

verus! {

/// The acceptance window, in the system's acceptance-time unit, that a payout
/// receives when it is claimed.
pub const ACCEPTANCE_GRACE: u32 = 40;

/// The columns of a payout that a claim reads and writes.
#[derive(Debug, Clone)]
pub struct ClaimRow {
    pub status: PayoutStatus,
    /// The payout is outbound.
    pub outbound: bool,
    /// An acceptance timestamp is set.
    pub accepted: bool,
    /// The payout is held by the aggregator pathway.
    pub aggregator_claimed: bool,
    pub assigned_worker: Option<String>,
    pub acceptance_time: Option<u32>,
}

#[derive(Debug, Clone, Copy, PartialEq, Eq, Structural)]
pub enum ClaimOutcome {
    Applied,
    NotEligible,
}

/// Why a manual assignment was refused.
#[derive(Debug, Clone, Copy, PartialEq, Eq, Structural)]
pub enum AssignError {
    /// The worker identity is blank.
    InvalidInput,
    /// The payout is not (or no longer) open for assignment.
    NotEligible,
}

/// Every predicate of the conditional write holds.
pub open spec fn claimable(r: ClaimRow) -> bool {
    &&& r.status is Created
    &&& r.outbound
    &&& !r.accepted
    &&& !r.aggregator_claimed
    &&& r.assigned_worker is None
}

/// The row holds exactly the effect of a successful claim of `before` by `worker`.
pub open spec fn claimed_by(after: ClaimRow, before: ClaimRow, worker: Seq<char>) -> bool {
    &&& after.assigned_worker matches Some(w) && w@ == worker
    &&& after.acceptance_time == Some(ACCEPTANCE_GRACE)
    &&& after.status == before.status
    &&& after.outbound == before.outbound
    &&& after.accepted == before.accepted
    &&& after.aggregator_claimed == before.aggregator_claimed
}

/// The effect of one claim: applied exactly when the row is claimable.
pub open spec fn claim_step(before: ClaimRow, after: ClaimRow, worker: Seq<char>, outcome: ClaimOutcome) -> bool {
    if claimable(before) {
        outcome == ClaimOutcome::Applied && claimed_by(after, before, worker)
    } else {
        outcome == ClaimOutcome::NotEligible && after == before
    }
}

impl ClaimRow {
    pub fn is_claimable(&self) -> (r: bool)
        ensures
            r == claimable(*self),
    {
        match self.status {
            PayoutStatus::Created => self.outbound && !self.accepted && !self.aggregator_claimed
                && self.assigned_worker.is_none(),
            _ => false,
        }
    }

    /// The conditional write: assigns the worker and starts the acceptance
    /// window when the row is claimable; otherwise leaves it untouched.
    pub fn claim(&mut self, worker_id: &str) -> (outcome: ClaimOutcome)
        ensures
            claim_step(*old(self), *final(self), worker_id@, outcome),
    {
        if self.is_claimable() {
            self.assigned_worker = Some(String::from_str(worker_id));
            self.acceptance_time = Some(ACCEPTANCE_GRACE);
            ClaimOutcome::Applied
        } else {
            ClaimOutcome::NotEligible
        }
    }
}

/// The outcome of a conditional write from the number of rows it changed.
pub fn outcome_of_rows(rows_affected: u64) -> (r: ClaimOutcome)
    ensures
        r == (if rows_affected > 0 { ClaimOutcome::Applied } else { ClaimOutcome::NotEligible }),
{
    if rows_affected > 0 {
        ClaimOutcome::Applied
    } else {
        ClaimOutcome::NotEligible
    }
}

/// Checks a manual assignment request before any write: the worker identity
/// must not be blank.
pub fn check_manual_request(worker_id: &str) -> (r: Result<(), AssignError>)
    ensures
        r is Err <==> trim_of(worker_id@).len() == 0,
        r matches Err(e) ==> e == AssignError::InvalidInput,
{
    if is_blank(worker_id) {
        Err(AssignError::InvalidInput)
    } else {
        Ok(())
    }
}

/// Finishes a manual assignment from the committer's outcome: a notification
/// tagged `manual` on success, `NotEligible` otherwise.
pub fn finish_manual_assignment(outcome: ClaimOutcome) -> (r: Result<ServerEvent, AssignError>)
    ensures
        outcome == ClaimOutcome::Applied ==> (r matches Ok(e) && payouts_updated_from(e, "manual"@)),
        outcome == ClaimOutcome::NotEligible ==> r == Err::<ServerEvent, AssignError>(AssignError::NotEligible),
{
    match outcome {
        ClaimOutcome::Applied => Ok(ServerEvent::payouts_updated("manual")),
        ClaimOutcome::NotEligible => Err(AssignError::NotEligible),
    }
}

/// The notification that closes an automatic cycle: one tagged `auto` when at
/// least one pairing applied, none otherwise.
pub fn cycle_notification(applied: u64) -> (r: Option<ServerEvent>)
    ensures
        applied == 0 <==> r is None,
        r matches Some(e) ==> payouts_updated_from(e, "auto"@),
{
    if applied > 0 {
        Some(ServerEvent::payouts_updated("auto"))
    } else {
        None
    }
}

/// A second claim of a payout that a claim has already taken is not eligible
/// and changes nothing, whichever worker it names.
pub proof fn lemma_claim_idempotent(r0: ClaimRow, r1: ClaimRow, r2: ClaimRow, w: Seq<char>, w2: Seq<char>, o1: ClaimOutcome, o2: ClaimOutcome)
    requires
        claim_step(r0, r1, w, o1),
        o1 == ClaimOutcome::Applied,
        claim_step(r1, r2, w2, o2),
    ensures
        o2 == ClaimOutcome::NotEligible,
        r2 == r1,
        r2.assigned_worker matches Some(x) && x@ == w,
{
}

/// Two competing claims of one claimable payout, in whichever order the store
/// serialises them, give exactly one `Applied` and one `NotEligible`, and the
/// payout ends with the worker of the claim that applied.
pub proof fn lemma_competing_claims(r0: ClaimRow, r1: ClaimRow, r2: ClaimRow, first: Seq<char>, second: Seq<char>, o1: ClaimOutcome, o2: ClaimOutcome)
    requires
        claimable(r0),
        claim_step(r0, r1, first, o1),
        claim_step(r1, r2, second, o2),
    ensures
        o1 == ClaimOutcome::Applied,
        o2 == ClaimOutcome::NotEligible,
        r2.assigned_worker matches Some(x) && x@ == first,
{
}

} // verus!
