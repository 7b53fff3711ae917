//! The assignment policy: a single-pass round robin over the eligible workers,
//! starting at the rotation cursor, in which each payout goes to the first
//! worker whose capacity limit admits its amount.
use vstd::prelude::*;

verus! {

/// An eligible worker, in the stable order of its ordinal.
/// `max_amount` is its capacity limit in minor currency units; `None` means unlimited.
#[derive(Debug, Clone)]
pub struct Worker {
    pub id: String,
    pub numeric_id: i32,
    pub max_amount: Option<i64>,
}

/// An unassigned payout, in order of creation.
/// `amount` is in minor currency units; an absent amount counts as zero.
#[derive(Debug, Clone)]
pub struct PendingPayout {
    pub id: String,
    pub numeric_id: i32,
    pub amount: Option<i64>,
}

/// The payout at index `payout` of the input goes to the worker at index `worker`.
#[derive(Debug, Clone, Copy, PartialEq, Eq, Structural)]
pub struct Pairing {
    pub payout: usize,
    pub worker: usize,
}

/// The outcome of one pass of the policy.
#[derive(Debug, Clone)]
pub struct AssignmentPlan {
    /// The pairings, in payout order.
    pub pairings: Vec<Pairing>,
    /// Indices of payouts with a positive amount that no worker accepted.
    pub skipped: Vec<usize>,
    /// The rotation cursor to use for the next pass.
    pub cursor: usize,
}

pub open spec fn limit_view(l: Option<i64>) -> Option<int> {
    match l {
        Some(m) => Some(m as int),
        None => None,
    }
}

pub open spec fn amount_view(a: Option<i64>) -> int {
    match a {
        Some(v) => v as int,
        None => 0,
    }
}

/// The capacity limits of the workers, in order.
pub open spec fn limits_of(workers: Seq<Worker>) -> Seq<Option<int>> {
    workers.map_values(|w: Worker| limit_view(w.max_amount))
}

/// The amounts of the payouts, in order.
pub open spec fn amounts_of(payouts: Seq<PendingPayout>) -> Seq<int> {
    payouts.map_values(|p: PendingPayout| amount_view(p.amount))
}

pub open spec fn pairing_view(p: Pairing) -> (int, int) {
    (p.payout as int, p.worker as int)
}

pub open spec fn opt_index(o: Option<usize>) -> Option<int> {
    match o {
        Some(i) => Some(i as int),
        None => None,
    }
}

/// A limit admits an amount when it is absent or at least the amount.
pub open spec fn accepts(limit: Option<int>, amount: int) -> bool {
    match limit {
        Some(m) => amount <= m,
        None => true,
    }
}

/// The index reached from `start` after `k` steps around a ring of `n` slots
/// (for `start < n` and `k < n`).
pub open spec fn wrap(start: int, k: int, n: int) -> int {
    if start + k < n {
        start + k
    } else {
        start + k - n
    }
}

/// The first worker, visited from `start` onwards with wrap-around and
/// skipping the first `k` visits, whose limit admits `amount`.
pub open spec fn first_accepting(limits: Seq<Option<int>>, amount: int, start: int, k: int) -> Option<int>
    decreases limits.len() - k,
{
    if k >= limits.len() {
        None
    } else {
        let w = wrap(start, k, limits.len() as int);
        if accepts(limits[w], amount) {
            Some(w)
        } else {
            first_accepting(limits, amount, start, k + 1)
        }
    }
}

/// The worker chosen for a payout of `amount` with the cursor at `cursor`:
/// none for a non-positive amount or an empty worker list.
pub open spec fn choose_worker(limits: Seq<Option<int>>, amount: int, cursor: int) -> Option<int> {
    if amount <= 0 || limits.len() == 0 {
        None
    } else {
        first_accepting(limits, amount, cursor % (limits.len() as int), 0)
    }
}

/// The cursor after a payout: just past the chosen worker, or unchanged.
pub open spec fn next_cursor(limits: Seq<Option<int>>, amount: int, cursor: int) -> int {
    match choose_worker(limits, amount, cursor) {
        Some(w) => if w + 1 < limits.len() { w + 1 } else { 0 },
        None => cursor,
    }
}

/// The choice made for each payout in turn, and the cursor after the last.
pub open spec fn run(limits: Seq<Option<int>>, amounts: Seq<int>, cursor: int) -> (Seq<Option<int>>, int)
    decreases amounts.len(),
{
    if amounts.len() == 0 {
        (Seq::empty(), cursor)
    } else {
        let prev = run(limits, amounts.drop_last(), cursor);
        let a = amounts.last();
        (prev.0.push(choose_worker(limits, a, prev.1)), next_cursor(limits, a, prev.1))
    }
}

pub open spec fn choices(limits: Seq<Option<int>>, amounts: Seq<int>, cursor: int) -> Seq<Option<int>> {
    run(limits, amounts, cursor).0
}

pub open spec fn cursor_after(limits: Seq<Option<int>>, amounts: Seq<int>, cursor: int) -> int {
    run(limits, amounts, cursor).1
}

/// The (payout index, worker index) pairs of the payouts that were given a worker.
pub open spec fn pairings_of(ch: Seq<Option<int>>) -> Seq<(int, int)>
    decreases ch.len(),
{
    if ch.len() == 0 {
        Seq::empty()
    } else {
        let prev = pairings_of(ch.drop_last());
        match ch.last() {
            Some(w) => prev.push(((ch.len() - 1) as int, w)),
            None => prev,
        }
    }
}

/// The indices of payouts with a positive amount that were given no worker.
pub open spec fn skipped_of(amounts: Seq<int>, ch: Seq<Option<int>>) -> Seq<int>
    decreases ch.len(),
{
    if ch.len() == 0 {
        Seq::empty()
    } else {
        let prev = skipped_of(amounts, ch.drop_last());
        let i = ch.len() - 1;
        if ch.last() is None && amounts[i] > 0 {
            prev.push(i)
        } else {
            prev
        }
    }
}

fn admits(limit: &Option<i64>, amount: i64) -> (r: bool)
    ensures
        r == accepts(limit_view(*limit), amount as int),
{
    match limit {
        Some(m) => amount <= *m,
        None => true,
    }
}

/// Picks the worker for one payout, scanning at most one full turn from the cursor.
pub fn pick_worker(workers: &Vec<Worker>, amount: i64, cursor: usize) -> (r: Option<usize>)
    ensures
        opt_index(r) == choose_worker(limits_of(workers@), amount as int, cursor as int),
        r matches Some(w) ==> w < workers.len(),
{
    let n = workers.len();
    if amount <= 0 || n == 0 {
        return None;
    }
    let ghost limits = limits_of(workers@);
    let start = cursor % n;
    let mut k: usize = 0;
    while k < n
        invariant
            n == workers.len(),
            limits == limits_of(workers@),
            limits.len() == n,
            amount > 0,
            start as int == (cursor as int) % (n as int),
            start < n,
            k <= n,
            first_accepting(limits, amount as int, start as int, 0)
                == first_accepting(limits, amount as int, start as int, k as int),
        decreases n - k,
    {
        let idx = if k < n - start {
            start + k
        } else {
            k - (n - start)
        };
        assert(idx as int == wrap(start as int, k as int, n as int));
        assert(limits[idx as int] == limit_view(workers@[idx as int].max_amount));
        if admits(&workers[idx].max_amount, amount) {
            return Some(idx);
        }
        k += 1;
    }
    None
}

/// One pass of the policy over `payouts` in order, starting at `cursor`.
pub fn assign(workers: &Vec<Worker>, payouts: &Vec<PendingPayout>, cursor: usize) -> (plan: AssignmentPlan)
    ensures
        ({
            let ch = choices(limits_of(workers@), amounts_of(payouts@), cursor as int);
            &&& plan.pairings@.map_values(|p: Pairing| pairing_view(p)) == pairings_of(ch)
            &&& plan.skipped@.map_values(|i: usize| i as int) == skipped_of(amounts_of(payouts@), ch)
            &&& plan.cursor as int == cursor_after(limits_of(workers@), amounts_of(payouts@), cursor as int)
        }),
{
    let ghost limits = limits_of(workers@);
    let ghost amounts = amounts_of(payouts@);
    let n = workers.len();
    let mut cur = cursor;
    let mut pairings: Vec<Pairing> = Vec::new();
    let mut skipped: Vec<usize> = Vec::new();
    let mut i: usize = 0;
    while i < payouts.len()
        invariant
            n == workers.len(),
            limits == limits_of(workers@),
            amounts == amounts_of(payouts@),
            i <= payouts.len(),
            cursor_after(limits, amounts.take(i as int), cursor as int) == cur as int,
            pairings@.map_values(|p: Pairing| pairing_view(p))
                == pairings_of(choices(limits, amounts.take(i as int), cursor as int)),
            skipped@.map_values(|j: usize| j as int)
                == skipped_of(amounts, choices(limits, amounts.take(i as int), cursor as int)),
            choices(limits, amounts.take(i as int), cursor as int).len() == i,
        decreases payouts.len() - i,
    {
        let amount: i64 = match payouts[i].amount {
            Some(a) => a,
            None => 0,
        };
        let ghost prefix = amounts.take(i as int);
        let ghost next = amounts.take(i + 1);
        assert(next.drop_last() =~= prefix);
        assert(next.last() == amount as int);
        let ghost ch = choices(limits, prefix, cursor as int);
        assert(amounts_of(payouts@)[i as int] == amount as int);
        let picked = pick_worker(workers, amount, cur);
        let ghost c = choose_worker(limits, amount as int, cur as int);
        assert(choices(limits, next, cursor as int) == ch.push(c));
        assert(ch.push(c).drop_last() =~= ch);
        match picked {
            Some(w) => {
                pairings.push(Pairing { payout: i, worker: w });
                cur = if w + 1 < n { w + 1 } else { 0 };
                assert(pairings@.map_values(|p: Pairing| pairing_view(p))
                    =~= pairings_of(choices(limits, next, cursor as int)));
            },
            None => {
                if amount > 0 {
                    skipped.push(i);
                }
                assert(pairings@.map_values(|p: Pairing| pairing_view(p))
                    =~= pairings_of(choices(limits, next, cursor as int)));
            },
        }
        assert(skipped@.map_values(|j: usize| j as int)
            =~= skipped_of(amounts, choices(limits, next, cursor as int)));
        i += 1;
    }
    assert(amounts.take(payouts.len() as int) =~= amounts);
    AssignmentPlan { pairings, skipped, cursor: cur }
}

} // verus!
