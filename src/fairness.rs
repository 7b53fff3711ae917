//! What the assignment policy guarantees: coverage, capacity limits,
//! independence from rejected payouts, and round-robin fairness.
use vstd::prelude::*;
use vstd::arithmetic::div_mod::{lemma_add_mod_noop, lemma_mod_bound, lemma_mod_equivalence, lemma_mod_self_0, lemma_mod_twice, lemma_small_mod};
use crate::policy::{accepts, choices, choose_worker, cursor_after, first_accepting, pairings_of, run, wrap};

verus! {

proof fn lemma_run_len(limits: Seq<Option<int>>, amounts: Seq<int>, cursor: int)
    ensures
        choices(limits, amounts, cursor).len() == amounts.len(),
    decreases amounts.len(),
{
    if amounts.len() > 0 {
        lemma_run_len(limits, amounts.drop_last(), cursor);
    }
}

proof fn lemma_first_accepting_sound(limits: Seq<Option<int>>, amount: int, start: int, k: int)
    requires
        0 <= start < limits.len(),
        0 <= k,
    ensures
        first_accepting(limits, amount, start, k) matches Some(w) ==> 0 <= w < limits.len()
            && accepts(limits[w], amount),
    decreases limits.len() - k,
{
    if k < limits.len() {
        lemma_first_accepting_sound(limits, amount, start, k + 1);
    }
}

proof fn lemma_first_accepting_complete(limits: Seq<Option<int>>, amount: int, start: int, k: int, j: int)
    requires
        0 <= start < limits.len(),
        0 <= k <= j < limits.len(),
        accepts(limits[wrap(start, j, limits.len() as int)], amount),
    ensures
        first_accepting(limits, amount, start, k) is Some,
    decreases j - k,
{
    if k < j && !accepts(limits[wrap(start, k, limits.len() as int)], amount) {
        lemma_first_accepting_complete(limits, amount, start, k + 1, j);
    }
}

proof fn lemma_first_accepting_none(limits: Seq<Option<int>>, amount: int, start: int, k: int)
    requires
        0 <= start < limits.len(),
        0 <= k,
        forall|w: int| 0 <= w < limits.len() ==> !accepts(limits[w], amount),
    ensures
        first_accepting(limits, amount, start, k) is None,
    decreases limits.len() - k,
{
    if k < limits.len() {
        lemma_first_accepting_none(limits, amount, start, k + 1);
    }
}

/// A chosen worker exists and its limit admits the amount.
proof fn lemma_choice_sound(limits: Seq<Option<int>>, amount: int, cursor: int)
    ensures
        choose_worker(limits, amount, cursor) matches Some(w) ==> 0 <= w < limits.len()
            && accepts(limits[w], amount),
{
    if amount > 0 && limits.len() > 0 {
        lemma_first_accepting_sound(limits, amount, cursor % (limits.len() as int), 0);
    }
}

/// A worker is chosen whenever the amount is positive and some limit admits it.
proof fn lemma_choice_complete(limits: Seq<Option<int>>, amount: int, cursor: int, w: int)
    requires
        amount > 0,
        0 <= w < limits.len(),
        accepts(limits[w], amount),
    ensures
        choose_worker(limits, amount, cursor) is Some,
{
    let n = limits.len() as int;
    let s = cursor % n;
    let j = if w >= s { w - s } else { w + n - s };
    assert(wrap(s, j, n) == w);
    lemma_first_accepting_complete(limits, amount, s, 0, j);
}

proof fn lemma_choices_sound(limits: Seq<Option<int>>, amounts: Seq<int>, cursor: int)
    ensures
        forall|i: int| #![trigger choices(limits, amounts, cursor)[i]]
            0 <= i < amounts.len() ==> (choices(limits, amounts, cursor)[i] matches Some(w) ==> 0 <= w
                < limits.len() && accepts(limits[w], amounts[i])),
    decreases amounts.len(),
{
    lemma_run_len(limits, amounts, cursor);
    if amounts.len() > 0 {
        let prev = amounts.drop_last();
        lemma_choices_sound(limits, prev, cursor);
        lemma_run_len(limits, prev, cursor);
        lemma_choice_sound(limits, amounts.last(), cursor_after(limits, prev, cursor));
        assert forall|i: int| #![trigger choices(limits, amounts, cursor)[i]]
            0 <= i < amounts.len() implies (choices(limits, amounts, cursor)[i] matches Some(w) ==> 0
                <= w < limits.len() && accepts(limits[w], amounts[i])) by {
            if i < prev.len() {
                assert(choices(limits, amounts, cursor)[i] == choices(limits, prev, cursor)[i]);
                assert(amounts[i] == prev[i]);
            }
        }
    }
}

/// Each pairing names a payout whose choice was that worker.
proof fn lemma_pairings_from_choices(ch: Seq<Option<int>>)
    ensures
        forall|j: int| #![trigger pairings_of(ch)[j]]
            0 <= j < pairings_of(ch).len() ==> 0 <= pairings_of(ch)[j].0 < ch.len()
                && ch[pairings_of(ch)[j].0] == Some(pairings_of(ch)[j].1),
    decreases ch.len(),
{
    if ch.len() > 0 {
        let prev = ch.drop_last();
        lemma_pairings_from_choices(prev);
        assert forall|j: int| #![trigger pairings_of(ch)[j]]
            0 <= j < pairings_of(ch).len() implies 0 <= pairings_of(ch)[j].0 < ch.len()
                && ch[pairings_of(ch)[j].0] == Some(pairings_of(ch)[j].1) by {
            if j < pairings_of(prev).len() {
                assert(pairings_of(ch)[j] == pairings_of(prev)[j]);
                assert(ch[pairings_of(prev)[j].0] == prev[pairings_of(prev)[j].0]);
            }
        }
    }
}

/// When every payout got a worker, there is one pairing per payout, in order.
proof fn lemma_pairings_total(ch: Seq<Option<int>>)
    requires
        forall|i: int| 0 <= i < ch.len() ==> ch[i] is Some,
    ensures
        pairings_of(ch).len() == ch.len(),
        forall|j: int| #![trigger pairings_of(ch)[j]] 0 <= j < ch.len() ==> pairings_of(ch)[j].0 == j,
    decreases ch.len(),
{
    if ch.len() > 0 {
        let prev = ch.drop_last();
        lemma_pairings_total(prev);
        assert forall|j: int| #![trigger pairings_of(ch)[j]] 0 <= j < ch.len() implies pairings_of(ch)[j].0 == j by {
            if j < prev.len() {
                assert(pairings_of(ch)[j] == pairings_of(prev)[j]);
            }
        }
    }
}

/// No pairing puts a payout on a worker whose limit is below its amount.
pub proof fn lemma_pairings_within_limits(limits: Seq<Option<int>>, amounts: Seq<int>, cursor: int)
    ensures
        forall|j: int| #![trigger pairings_of(choices(limits, amounts, cursor))[j]]
            0 <= j < pairings_of(choices(limits, amounts, cursor)).len() ==> ({
                let p = pairings_of(choices(limits, amounts, cursor))[j];
                &&& 0 <= p.0 < amounts.len()
                &&& 0 <= p.1 < limits.len()
                &&& accepts(limits[p.1], amounts[p.0])
            }),
{
    let ch = choices(limits, amounts, cursor);
    lemma_run_len(limits, amounts, cursor);
    lemma_choices_sound(limits, amounts, cursor);
    lemma_pairings_from_choices(ch);
    assert forall|j: int| #![trigger pairings_of(choices(limits, amounts, cursor))[j]]
        0 <= j < pairings_of(ch).len() implies ({
            let p = pairings_of(choices(limits, amounts, cursor))[j];
            &&& 0 <= p.0 < amounts.len()
            &&& 0 <= p.1 < limits.len()
            &&& accepts(limits[p.1], amounts[p.0])
        }) by {
        let p = pairings_of(ch)[j];
        assert(ch[p.0] == Some(p.1));
    }
}

/// With at least one worker, and every payout positive and within some worker's
/// limit, every payout is paired exactly once, in order, and no worker is given
/// an amount above its limit.
pub proof fn lemma_every_payout_paired(limits: Seq<Option<int>>, amounts: Seq<int>, cursor: int)
    requires
        limits.len() > 0,
        forall|i: int| 0 <= i < amounts.len() ==> amounts[i] > 0,
        forall|i: int| #![trigger amounts[i]] 0 <= i < amounts.len() ==> exists|w: int| 0 <= w < limits.len() && accepts(#[trigger] limits[w], amounts[i]),
    ensures
        pairings_of(choices(limits, amounts, cursor)).len() == amounts.len(),
        forall|j: int| #![trigger pairings_of(choices(limits, amounts, cursor))[j]]
            0 <= j < amounts.len() ==> ({
                let p = pairings_of(choices(limits, amounts, cursor))[j];
                &&& p.0 == j
                &&& 0 <= p.1 < limits.len()
                &&& accepts(limits[p.1], amounts[j])
            }),
{
    let ch = choices(limits, amounts, cursor);
    lemma_all_chosen(limits, amounts, cursor);
    lemma_pairings_total(ch);
    lemma_pairings_within_limits(limits, amounts, cursor);
}

proof fn lemma_all_chosen(limits: Seq<Option<int>>, amounts: Seq<int>, cursor: int)
    requires
        forall|i: int| 0 <= i < amounts.len() ==> amounts[i] > 0,
        forall|i: int| #![trigger amounts[i]] 0 <= i < amounts.len() ==> exists|w: int| 0 <= w < limits.len() && accepts(#[trigger] limits[w], amounts[i]),
    ensures
        choices(limits, amounts, cursor).len() == amounts.len(),
        forall|i: int| 0 <= i < amounts.len() ==> (#[trigger] choices(limits, amounts, cursor)[i]) is Some,
    decreases amounts.len(),
{
    lemma_run_len(limits, amounts, cursor);
    if amounts.len() > 0 {
        let prev = amounts.drop_last();
        lemma_all_chosen(limits, prev, cursor);
        let last = amounts.len() - 1;
        let w = choose|w: int| 0 <= w < limits.len() && accepts(#[trigger] limits[w], amounts[last]);
        lemma_choice_complete(limits, amounts.last(), cursor_after(limits, prev, cursor), w);
        assert forall|i: int| 0 <= i < amounts.len() implies (#[trigger] choices(limits, amounts, cursor)[i]) is Some by {
            if i < prev.len() {
                assert(choices(limits, amounts, cursor)[i] == choices(limits, prev, cursor)[i]);
                assert(amounts[i] == prev[i]);
            }
        }
    }
}

/// A payout above every worker's limit is skipped, and the choices made for
/// all other payouts, and the final cursor, are exactly those made without it.
pub proof fn lemma_rejected_payout_is_transparent(
    limits: Seq<Option<int>>,
    amounts: Seq<int>,
    i: int,
    x: int,
    cursor: int,
)
    requires
        0 <= i <= amounts.len(),
        forall|w: int| 0 <= w < limits.len() ==> (#[trigger] limits[w] matches Some(m) && x > m),
    ensures
        choices(limits, amounts.insert(i, x), cursor) == choices(limits, amounts, cursor).insert(i, None),
        cursor_after(limits, amounts.insert(i, x), cursor) == cursor_after(limits, amounts, cursor),
    decreases amounts.len(),
{
    let with = amounts.insert(i, x);
    let prev = run(limits, amounts, cursor);
    lemma_run_len(limits, amounts, cursor);
    assert forall|c: int| choose_worker(limits, x, c) is None by {
        if x > 0 && limits.len() > 0 {
            lemma_first_accepting_none(limits, x, c % (limits.len() as int), 0);
        }
    }
    if i == amounts.len() {
        assert(with.drop_last() =~= amounts);
        assert(with.last() == x);
        assert(prev.0.insert(i, None) =~= prev.0.push(None));
    } else {
        let shorter = amounts.drop_last();
        lemma_rejected_payout_is_transparent(limits, shorter, i, x, cursor);
        lemma_run_len(limits, shorter, cursor);
        assert(with.drop_last() =~= shorter.insert(i, x));
        assert(with.last() == amounts.last());
        let ch = choices(limits, shorter, cursor);
        let c = choose_worker(limits, amounts.last(), cursor_after(limits, shorter, cursor));
        assert(ch.insert(i, None).push(c) =~= ch.push(c).insert(i, None));
    }
}

proof fn lemma_rotate_step(x: int, n: int)
    requires
        0 <= x,
        0 < n,
    ensures
        (if x % n + 1 < n { x % n + 1 } else { 0 }) == (x + 1) % n,
{
    lemma_add_mod_noop(x, 1, n);
    lemma_mod_bound(x, n);
    lemma_mod_bound(x + 1, n);
    if n > 1 {
        lemma_small_mod(1, n as nat);
        if x % n + 1 < n {
            lemma_small_mod((x % n + 1) as nat, n as nat);
        } else {
            lemma_mod_self_0(n);
        }
    }
}

/// With identical (or absent) limits, the pairings visit the workers in turn.
proof fn lemma_rotation(limits: Seq<Option<int>>, amounts: Seq<int>, cursor: int)
    requires
        limits.len() > 0,
        0 <= cursor,
        forall|w: int| 0 <= w < limits.len() ==> #[trigger] limits[w] == limits[0],
    ensures
        ({
            let ps = pairings_of(choices(limits, amounts, cursor));
            let cur = cursor_after(limits, amounts, cursor);
            let n = limits.len() as int;
            &&& ps.len() == 0 ==> cur == cursor
            &&& ps.len() > 0 ==> cur == (cursor + ps.len()) % n
            &&& forall|j: int| #![trigger ps[j]] 0 <= j < ps.len() ==> ps[j].1 == (cursor + j) % n
        }),
    decreases amounts.len(),
{
    let n = limits.len() as int;
    if amounts.len() > 0 {
        let prev = amounts.drop_last();
        lemma_rotation(limits, prev, cursor);
        let ch = choices(limits, prev, cursor);
        let ps = pairings_of(ch);
        let cur = cursor_after(limits, prev, cursor);
        let a = amounts.last();
        let c = choose_worker(limits, a, cur);
        lemma_run_len(limits, prev, cursor);
        assert(cur >= 0) by {
            if ps.len() > 0 {
                assert(cur == (cursor + ps.len()) % n);
            }
        }
        assert(ch.push(c).drop_last() =~= ch);
        if a > 0 {
            let s = cur % n;
            assert(wrap(s, 0, n) == s);
            if accepts(limits[0], a) {
                assert(accepts(limits[s], a));
                assert(c == Some(s));
                lemma_rotate_step(cur, n);
                if ps.len() > 0 {
                    lemma_mod_twice(cursor + ps.len(), n);
                    lemma_rotate_step(cursor + ps.len(), n);
                    lemma_add_mod_noop(cursor + ps.len(), 1, n);
                } else {
                    lemma_rotate_step(cursor, n);
                }
                assert(pairings_of(ch.push(c)) == ps.push((prev.len() as int, s)));
            } else {
                assert forall|w: int| 0 <= w < limits.len() implies !accepts(limits[w], a) by {
                    assert(limits[w] == limits[0]);
                }
                lemma_first_accepting_none(limits, a, s, 0);
            }
        }
    }
}

/// Round-robin fairness: with identical (or absent) limits, the j-th pairing
/// goes to the worker j places after the cursor, so no worker receives a
/// second payout within any run of fewer pairings than there are workers.
pub proof fn lemma_round_robin_fairness(limits: Seq<Option<int>>, amounts: Seq<int>, cursor: int)
    requires
        limits.len() > 0,
        0 <= cursor,
        forall|w: int| 0 <= w < limits.len() ==> #[trigger] limits[w] == limits[0],
    ensures
        forall|j: int| #![trigger pairings_of(choices(limits, amounts, cursor))[j]]
            0 <= j < pairings_of(choices(limits, amounts, cursor)).len()
                ==> pairings_of(choices(limits, amounts, cursor))[j].1 == (cursor + j) % (limits.len() as int),
        forall|j: int, k: int|
            0 <= j < k < pairings_of(choices(limits, amounts, cursor)).len()
                && #[trigger] pairings_of(choices(limits, amounts, cursor))[j].1
                == #[trigger] pairings_of(choices(limits, amounts, cursor))[k].1 ==> k - j >= limits.len(),
{
    let ps = pairings_of(choices(limits, amounts, cursor));
    let n = limits.len() as int;
    lemma_rotation(limits, amounts, cursor);
    assert forall|j: int, k: int| 0 <= j < k < ps.len() && #[trigger] ps[j].1 == #[trigger] ps[k].1 implies k - j >= n by {
        lemma_mod_equivalence(cursor + k, cursor + j, n);
        assert((cursor + k) - (cursor + j) == k - j);
        if k - j < n {
            lemma_small_mod((k - j) as nat, n as nat);
        }
    }
}

} // verus!
