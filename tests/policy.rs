use payout_distributor::policy::{assign, pick_worker, Pairing, PendingPayout, Worker};

fn worker(id: &str, n: i32, max_amount: Option<i64>) -> Worker {
    Worker { id: id.to_string(), numeric_id: n, max_amount }
}

fn payout(id: &str, n: i32, amount: Option<i64>) -> PendingPayout {
    PendingPayout { id: id.to_string(), numeric_id: n, amount }
}

fn pairs(plan: &[Pairing]) -> Vec<(usize, usize)> {
    plan.iter().map(|p| (p.payout, p.worker)).collect()
}

#[test]
fn scenario_limited_and_unlimited_worker() {
    // W1 limit 1000.00, W2 unlimited; payouts of 500.00 and 1500.00; cursor 0.
    let workers = vec![worker("W1", 1, Some(100_000)), worker("W2", 2, None)];
    let payouts = vec![payout("first", 1, Some(50_000)), payout("second", 2, Some(150_000))];
    let plan = assign(&workers, &payouts, 0);
    assert_eq!(pairs(&plan.pairings), vec![(0, 0), (1, 1)]);
    // W2 (index 1) took the last payout, so the cursor wraps to index 0.
    assert_eq!(plan.cursor, 0);
    assert!(plan.skipped.is_empty());
}

#[test]
fn every_payout_paired_within_limits() {
    let workers = vec![
        worker("a", 1, Some(1_000)),
        worker("b", 2, Some(5_000)),
        worker("c", 3, None),
    ];
    let payouts = vec![
        payout("po-1", 1, Some(900)),
        payout("po-2", 2, Some(4_000)),
        payout("po-3", 3, Some(70_000)),
        payout("po-4", 4, Some(1_000)),
        payout("po-5", 5, Some(5_000)),
    ];
    let plan = assign(&workers, &payouts, 1);
    assert_eq!(plan.pairings.len(), payouts.len());
    for (j, p) in plan.pairings.iter().enumerate() {
        assert_eq!(p.payout, j);
        let amount = payouts[p.payout].amount.unwrap();
        if let Some(limit) = workers[p.worker].max_amount {
            assert!(amount <= limit);
        }
    }
    assert_eq!(pairs(&plan.pairings), vec![(0, 1), (1, 2), (2, 2), (3, 0), (4, 1)]);
    assert_eq!(plan.cursor, 2);
}

#[test]
fn payout_above_every_limit_is_skipped_without_effect() {
    let workers = vec![worker("a", 1, Some(1_000)), worker("b", 2, Some(2_000))];
    let with_big = vec![
        payout("po-1", 1, Some(500)),
        payout("big", 2, Some(10_000)),
        payout("po-3", 3, Some(700)),
    ];
    let without = vec![payout("po-1", 1, Some(500)), payout("po-3", 3, Some(700))];
    let a = assign(&workers, &with_big, 0);
    let b = assign(&workers, &without, 0);
    assert_eq!(a.skipped, vec![1]);
    assert!(b.skipped.is_empty());
    let workers_a: Vec<usize> = a.pairings.iter().map(|p| p.worker).collect();
    let workers_b: Vec<usize> = b.pairings.iter().map(|p| p.worker).collect();
    assert_eq!(workers_a, workers_b);
    assert_eq!(pairs(&a.pairings), vec![(0, 0), (2, 1)]);
    assert_eq!(a.cursor, b.cursor);
}

#[test]
fn round_robin_gives_each_worker_one_before_any_second() {
    let workers = vec![worker("a", 1, None), worker("b", 2, None), worker("c", 3, None)];
    let payouts: Vec<PendingPayout> = (0..7).map(|i| payout("p", i, Some(100))).collect();
    let plan = assign(&workers, &payouts, 2);
    let got: Vec<usize> = plan.pairings.iter().map(|p| p.worker).collect();
    assert_eq!(got, vec![2, 0, 1, 2, 0, 1, 2]);
    assert_eq!(plan.cursor, 0);
}

#[test]
fn identical_limits_rotate_and_skip_too_large() {
    let workers = vec![worker("a", 1, Some(300)), worker("b", 2, Some(300))];
    let payouts = vec![
        payout("po-1", 1, Some(100)),
        payout("po-2", 2, Some(400)),
        payout("po-3", 3, Some(200)),
        payout("po-4", 4, Some(300)),
    ];
    let plan = assign(&workers, &payouts, 0);
    assert_eq!(pairs(&plan.pairings), vec![(0, 0), (2, 1), (3, 0)]);
    assert_eq!(plan.skipped, vec![1]);
    assert_eq!(plan.cursor, 1);
}

#[test]
fn empty_worker_list_keeps_cursor() {
    let payouts = vec![payout("po-1", 1, Some(100))];
    let plan = assign(&Vec::new(), &payouts, 5);
    assert!(plan.pairings.is_empty());
    assert_eq!(plan.cursor, 5);
}

#[test]
fn empty_payout_list_gives_nothing() {
    let workers = vec![worker("a", 1, None)];
    let plan = assign(&workers, &Vec::new(), 0);
    assert!(plan.pairings.is_empty());
    assert!(plan.skipped.is_empty());
    assert_eq!(plan.cursor, 0);
}

#[test]
fn non_positive_or_missing_amounts_are_ignored() {
    let workers = vec![worker("a", 1, None)];
    let payouts = vec![payout("po-1", 1, Some(0)), payout("po-2", 2, Some(-5)), payout("po-3", 3, None)];
    let plan = assign(&workers, &payouts, 0);
    assert!(plan.pairings.is_empty());
    assert!(plan.skipped.is_empty());
    assert_eq!(plan.cursor, 0);
}

#[test]
fn cursor_beyond_worker_count_wraps() {
    let workers = vec![worker("a", 1, None), worker("b", 2, None)];
    assert_eq!(pick_worker(&workers, 10, 7), Some(1));
    assert_eq!(pick_worker(&workers, 10, usize::MAX), Some(1));
    assert_eq!(pick_worker(&workers, 0, 0), None);
}

#[test]
fn limit_equal_to_amount_accepts() {
    let workers = vec![worker("a", 1, Some(500)), worker("b", 2, Some(499))];
    assert_eq!(pick_worker(&workers, 500, 1), Some(0));
    assert_eq!(pick_worker(&workers, 501, 0), None);
}

#[test]
fn same_inputs_same_plan() {
    let workers = vec![worker("a", 1, Some(50)), worker("b", 2, None)];
    let payouts = vec![payout("po-1", 1, Some(60)), payout("po-2", 2, Some(10))];
    let a = assign(&workers, &payouts, 1);
    let b = assign(&workers, &payouts, 1);
    assert_eq!(a.pairings, b.pairings);
    assert_eq!(a.cursor, b.cursor);
}
