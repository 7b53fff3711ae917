use payout_distributor::claim::{
    check_manual_request, cycle_notification, finish_manual_assignment, outcome_of_rows, AssignError,
    ClaimOutcome, ClaimRow, ACCEPTANCE_GRACE,
};
use payout_distributor::status::PayoutStatus;

fn open_row() -> ClaimRow {
    ClaimRow {
        status: PayoutStatus::Created,
        outbound: true,
        accepted: false,
        aggregator_claimed: false,
        assigned_worker: None,
        acceptance_time: None,
    }
}

#[test]
fn claim_applies_once() {
    let mut row = open_row();
    assert_eq!(row.claim("w1"), ClaimOutcome::Applied);
    assert_eq!(row.assigned_worker.as_deref(), Some("w1"));
    assert_eq!(row.acceptance_time, Some(ACCEPTANCE_GRACE));
    assert_eq!(row.acceptance_time, Some(40));
    // The same pair again: not eligible, nothing changes.
    assert_eq!(row.claim("w1"), ClaimOutcome::NotEligible);
    assert_eq!(row.assigned_worker.as_deref(), Some("w1"));
}

#[test]
fn competing_claims_one_wins() {
    let mut row = open_row();
    let first = row.claim("w1");
    let second = row.claim("w2");
    assert_eq!(first, ClaimOutcome::Applied);
    assert_eq!(second, ClaimOutcome::NotEligible);
    assert_eq!(row.assigned_worker.as_deref(), Some("w1"));
}

#[test]
fn each_predicate_blocks_a_claim() {
    let mut rows = Vec::new();
    let mut r = open_row();
    r.status = PayoutStatus::Other("ACTIVE".to_string());
    rows.push(r);
    let mut r = open_row();
    r.outbound = false;
    rows.push(r);
    let mut r = open_row();
    r.accepted = true;
    rows.push(r);
    let mut r = open_row();
    r.aggregator_claimed = true;
    rows.push(r);
    let mut r = open_row();
    r.assigned_worker = Some("other".to_string());
    rows.push(r);
    for mut row in rows {
        assert!(!row.is_claimable());
        let before = format!("{:?}", row);
        assert_eq!(row.claim("w"), ClaimOutcome::NotEligible);
        assert_eq!(format!("{:?}", row), before);
    }
}

#[test]
fn rows_affected_decides_outcome() {
    assert_eq!(outcome_of_rows(0), ClaimOutcome::NotEligible);
    assert_eq!(outcome_of_rows(1), ClaimOutcome::Applied);
}

#[test]
fn blank_worker_is_invalid_input() {
    assert_eq!(check_manual_request("   "), Err(AssignError::InvalidInput));
    assert_eq!(check_manual_request(""), Err(AssignError::InvalidInput));
    assert_eq!(check_manual_request(" w1 "), Ok(()));
}

#[test]
fn manual_assignment_outcomes() {
    let ok = finish_manual_assignment(ClaimOutcome::Applied).unwrap();
    assert_eq!(ok.event_type, "payouts-updated");
    assert_eq!(ok.message.as_deref(), Some("source=manual"));
    assert_eq!(finish_manual_assignment(ClaimOutcome::NotEligible).unwrap_err(), AssignError::NotEligible);
}

#[test]
fn cycle_notification_only_after_changes() {
    assert!(cycle_notification(0).is_none());
    let e = cycle_notification(3).unwrap();
    assert_eq!(e.event_type, "payouts-updated");
    assert_eq!(e.message.as_deref(), Some("source=auto"));
}
