//! The capacity registry: the optional maximum payout amount of each worker,
//! kept in memory and changed by administrative requests.
use vstd::prelude::*;
use crate::policy::{limit_view, Worker};

verus! {

#[derive(Debug, Clone)]
pub struct LimitEntry {
    pub worker_id: String,
    pub max_amount: i64,
}

/// The limit that the entries give `key`: that of the last entry for it.
pub open spec fn find(entries: Seq<LimitEntry>, key: Seq<char>) -> Option<int>
    decreases entries.len(),
{
    if entries.len() == 0 {
        None
    } else if entries.last().worker_id@ == key {
        Some(entries.last().max_amount as int)
    } else {
        find(entries.drop_last(), key)
    }
}

/// A limit as it is kept: only a positive amount is a limit; anything else clears it.
pub open spec fn sanitized(max_amount: Option<i64>) -> Option<i64> {
    match max_amount {
        Some(v) => if v > 0 { Some(v) } else { None },
        None => None,
    }
}

/// Worker identity to maximum payout amount, in minor currency units.
#[derive(Debug, Clone)]
pub struct CapacityRegistry {
    entries: Vec<LimitEntry>,
}

impl View for CapacityRegistry {
    type V = Map<Seq<char>, int>;

    closed spec fn view(&self) -> Map<Seq<char>, int> {
        Map::new(|k: Seq<char>| find(self.entries@, k) is Some, |k: Seq<char>| find(self.entries@, k)->Some_0)
    }
}

impl CapacityRegistry {
    /// Every kept limit is positive.
    pub closed spec fn wf(&self) -> bool {
        forall|i: int| 0 <= i < self.entries@.len() ==> #[trigger] self.entries@[i].max_amount > 0
    }

    /// The limit of `key`, if one is set.
    pub closed spec fn limit(&self, key: Seq<char>) -> Option<int> {
        find(self.entries@, key)
    }

    pub fn new() -> (r: CapacityRegistry)
        ensures
            r.wf(),
            r@ == Map::<Seq<char>, int>::empty(),
    {
        let r = CapacityRegistry { entries: Vec::new() };
        assert(r@ =~= Map::<Seq<char>, int>::empty());
        r
    }

    /// The limit of a worker, if one is set.
    pub fn limit_of(&self, worker_id: &str) -> (r: Option<i64>)
        requires
            self.wf(),
        ensures
            limit_view(r) == self.limit(worker_id@),
            r matches Some(v) ==> v > 0,
            self@.contains_key(worker_id@) == r is Some,
            r matches Some(v) ==> self@[worker_id@] == v,
    {
        let mut i = self.entries.len();
        assert(self.entries@.take(i as int) =~= self.entries@);
        while i > 0
            invariant
                i <= self.entries.len(),
                self.wf(),
                find(self.entries@, worker_id@) == find(self.entries@.take(i as int), worker_id@),
            decreases i,
        {
            let ghost prefix = self.entries@.take(i as int);
            assert(prefix.drop_last() =~= self.entries@.take(i - 1));
            let e = &self.entries[i - 1];
            if crate::text::same_text(e.worker_id.as_str(), worker_id) {
                return Some(e.max_amount);
            }
            i -= 1;
        }
        None
    }

    /// Sets or clears a worker's limit; a missing or non-positive amount
    /// clears it. Returns the limit as kept.
    pub fn set_limit(&mut self, worker_id: &str, max_amount: Option<i64>) -> (r: Option<i64>)
        requires
            old(self).wf(),
        ensures
            final(self).wf(),
            r == sanitized(max_amount),
            forall|k: Seq<char>| #[trigger] final(self).limit(k) == if k == worker_id@ {
                limit_view(r)
            } else {
                old(self).limit(k)
            },
            final(self)@ == match r {
                Some(v) => old(self)@.insert(worker_id@, v as int),
                None => old(self)@.remove(worker_id@),
            },
    {
        let kept: Option<i64> = match max_amount {
            Some(v) => if v > 0 { Some(v) } else { None },
            None => None,
        };
        let ghost before = self.entries@;
        let mut rest: Vec<LimitEntry> = Vec::new();
        let mut i: usize = 0;
        while i < self.entries.len()
            invariant
                i <= self.entries.len(),
                self.entries@ == before,
                forall|j: int| 0 <= j < before.len() ==> #[trigger] before[j].max_amount > 0,
                forall|j: int| 0 <= j < rest@.len() ==> #[trigger] rest@[j].max_amount > 0,
                forall|k: Seq<char>| #[trigger] find(rest@, k) == if k == worker_id@ {
                    None
                } else {
                    find(before.take(i as int), k)
                },
            decreases self.entries.len() - i,
        {
            let e = &self.entries[i];
            assert(before.take(i + 1).drop_last() =~= before.take(i as int));
            let ghost old_rest = rest@;
            if !crate::text::same_text(e.worker_id.as_str(), worker_id) {
                rest.push(LimitEntry { worker_id: e.worker_id.clone(), max_amount: e.max_amount });
                assert(rest@.drop_last() =~= old_rest);
            }
            assert forall|k: Seq<char>| #[trigger] find(rest@, k) == if k == worker_id@ {
                None
            } else {
                find(before.take(i + 1), k)
            } by {
                assert(find(old_rest, k) == if k == worker_id@ {
                    None
                } else {
                    find(before.take(i as int), k)
                });
            }
            i += 1;
        }
        assert(before.take(before.len() as int) =~= before);
        let ghost old_rest = rest@;
        if let Some(v) = kept {
            rest.push(LimitEntry { worker_id: String::from_str(worker_id), max_amount: v });
            assert(rest@.drop_last() =~= old_rest);
        }
        self.entries = rest;
        assert forall|k: Seq<char>| #[trigger] find(self.entries@, k) == if k == worker_id@ {
            limit_view(kept)
        } else {
            find(before, k)
        } by {
            assert(find(old_rest, k) == if k == worker_id@ {
                None
            } else {
                find(before, k)
            });
        }
        assert(self@ =~= match kept {
            Some(v) => old(self)@.insert(worker_id@, v as int),
            None => old(self)@.remove(worker_id@),
        });
        kept
    }

    /// The workers, each with the limit that the registry holds for it.
    pub fn apply_to(&self, workers: Vec<Worker>) -> (r: Vec<Worker>)
        requires
            self.wf(),
        ensures
            r@.len() == workers@.len(),
            forall|i: int| #![trigger r@[i]] 0 <= i < r@.len() ==> {
                &&& r@[i].id == workers@[i].id
                &&& r@[i].numeric_id == workers@[i].numeric_id
                &&& limit_view(r@[i].max_amount) == self.limit(workers@[i].id@)
            },
    {
        let mut r: Vec<Worker> = Vec::new();
        let mut i: usize = 0;
        while i < workers.len()
            invariant
                self.wf(),
                i <= workers.len(),
                r@.len() == i,
                forall|j: int| #![trigger r@[j]] 0 <= j < i ==> {
                    &&& r@[j].id == workers@[j].id
                    &&& r@[j].numeric_id == workers@[j].numeric_id
                    &&& limit_view(r@[j].max_amount) == self.limit(workers@[j].id@)
                },
            decreases workers.len() - i,
        {
            let w = &workers[i];
            let limit = self.limit_of(w.id.as_str());
            r.push(Worker { id: w.id.clone(), numeric_id: w.numeric_id, max_amount: limit });
            i += 1;
        }
        r
    }
}

} // verus!
