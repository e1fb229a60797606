//! Per-region latency tables.
//!
//! A table maps a relay region id to the shortest latency (in milliseconds)
//! observed for that region so far.  Folding in a new observation keeps the
//! smaller of the stored and the new value.

use crate::kvseq::{kv_map, kv_unique, lemma_kv_map_dom, lemma_kv_map_index, lemma_kv_map_len,
    lemma_kv_map_push, lemma_kv_map_update};
use crate::MAX_LATENCY_MS;
use vstd::prelude::*;

verus! {

/// The smaller of two latencies.
pub open spec fn min64(a: u64, b: u64) -> u64 {
    if a <= b {
        a
    } else {
        b
    }
}

/// The table after folding in one observation: the key maps to the smaller
/// of its old value (if any) and the new one.
pub open spec fn upd_min(m: Map<u16, u64>, region: u16, latency: u64) -> Map<u16, u64> {
    if m.contains_key(region) {
        m.insert(region, min64(m[region], latency))
    } else {
        m.insert(region, latency)
    }
}

/// All values of the map are at most [`MAX_LATENCY_MS`].
pub open spec fn latencies_bounded(m: Map<u16, u64>) -> bool {
    forall|r: u16| m.contains_key(r) ==> m[r] <= MAX_LATENCY_MS
}

/// Map from region id to the shortest observed latency, in milliseconds.
#[derive(Debug)]
pub struct RegionLatencies {
    entries: Vec<(u16, u64)>,
}

impl View for RegionLatencies {
    type V = Map<u16, u64>;

    closed spec fn view(&self) -> Map<u16, u64> {
        kv_map(self.entries@)
    }
}

impl RegionLatencies {
    /// The keys are pairwise distinct and every value is bounded.
    pub closed spec fn wf(&self) -> bool {
        kv_unique(self.entries@) && latencies_bounded(self@)
    }

    /// The view's domain is finite and as large as the entry list.
    pub proof fn lemma_wf_props(&self)
        requires
            self.wf(),
        ensures
            self@.dom().finite(),
            latencies_bounded(self@),
    {
        lemma_kv_map_len(self.entries@);
    }

    /// An empty table.
    pub fn new() -> (r: Self)
        ensures
            r.wf(),
            r@ == Map::<u16, u64>::empty(),
    {
        RegionLatencies { entries: Vec::new() }
    }

    /// The number of regions with an observed latency.
    pub fn len(&self) -> (r: usize)
        requires
            self.wf(),
        ensures
            r == self@.dom().len(),
    {
        proof {
            lemma_kv_map_len(self.entries@);
        }
        self.entries.len()
    }

    /// Whether no region has an observed latency.
    pub fn is_empty(&self) -> (r: bool)
        requires
            self.wf(),
        ensures
            r == (self@.dom().len() == 0),
    {
        proof {
            lemma_kv_map_len(self.entries@);
        }
        self.entries.len() == 0
    }

    /// The latency stored for a region, if any.
    pub fn get(&self, region: u16) -> (r: Option<u64>)
        requires
            self.wf(),
        ensures
            r == if self@.contains_key(region) {
                Some(self@[region])
            } else {
                None::<u64>
            },
    {
        proof {
            lemma_kv_map_dom(self.entries@);
        }
        let n = self.entries.len();
        let mut i: usize = 0;
        while i < n
            invariant
                n == self.entries@.len(),
                self.wf(),
                forall|j: int| 0 <= j < i ==> self.entries@[j].0 != region,
            decreases n - i,
        {
            if self.entries[i].0 == region {
                proof {
                    lemma_kv_map_index(self.entries@, i as int);
                }
                return Some(self.entries[i].1);
            }
            i = i + 1;
        }
        None
    }

    /// Whether a region has an observed latency.
    pub fn contains(&self, region: u16) -> (r: bool)
        requires
            self.wf(),
        ensures
            r == self@.contains_key(region),
    {
        self.get(region).is_some()
    }

    /// Folds in one observation, keeping the smaller latency for the region.
    pub fn update_region(&mut self, region: u16, latency: u64)
        requires
            old(self).wf(),
            latency <= MAX_LATENCY_MS,
        ensures
            final(self).wf(),
            final(self)@ == upd_min(old(self)@, region, latency),
    {
        proof {
            lemma_kv_map_dom(self.entries@);
        }
        let n = self.entries.len();
        let mut i: usize = 0;
        while i < n
            invariant
                n == self.entries@.len(),
                self.wf(),
                self == old(self),
                forall|j: int| 0 <= j < i ==> self.entries@[j].0 != region,
            decreases n - i,
        {
            if self.entries[i].0 == region {
                let existing = self.entries[i].1;
                proof {
                    lemma_kv_map_index(self.entries@, i as int);
                }
                let smaller = if existing <= latency {
                    existing
                } else {
                    latency
                };
                let ghost before = self.entries@;
                self.entries[i] = (region, smaller);
                proof {
                    assert(self.entries@ =~= before.update(i as int, (before[i as int].0, smaller)));
                    lemma_kv_map_update(before, i as int, smaller);
                }
                return ;
            }
            i = i + 1;
        }
        let ghost before = self.entries@;
        self.entries.push((region, latency));
        proof {
            lemma_kv_map_push(before, region, latency);
            assert(kv_unique(self.entries@)) by {
                assert(forall|j: int| 0 <= j < before.len() ==> self.entries@[j] == before[j]);
            }
        }
    }

    /// The largest stored latency; zero when the table is empty.
    pub fn max_latency(&self) -> (r: u64)
        requires
            self.wf(),
        ensures
            r <= MAX_LATENCY_MS,
            forall|k: u16| self@.contains_key(k) ==> self@[k] <= r,
            self@.dom().len() == 0 ==> r == 0,
            self@.dom().len() > 0 ==> exists|k: u16| self@.contains_key(k) && self@[k] == r,
    {
        proof {
            lemma_kv_map_dom(self.entries@);
            lemma_kv_map_len(self.entries@);
        }
        let n = self.entries.len();
        let mut best: u64 = 0;
        let mut i: usize = 0;
        while i < n
            invariant
                n == self.entries@.len(),
                i <= n,
                self.wf(),
                best <= MAX_LATENCY_MS,
                forall|j: int| 0 <= j < i ==> self.entries@[j].1 <= best,
                i > 0 ==> exists|j: int| 0 <= j < i && self.entries@[j].1 == best,
                i == 0 ==> best == 0,
            decreases n - i,
        {
            proof {
                lemma_kv_map_index(self.entries@, i as int);
            }
            if self.entries[i].1 > best {
                best = self.entries[i].1;
            }
            i = i + 1;
        }
        proof {
            assert forall|k: u16| self@.contains_key(k) implies self@[k] <= best by {
                let j = choose|j: int| 0 <= j < self.entries@.len() && self.entries@[j].0 == k;
                lemma_kv_map_index(self.entries@, j);
            }
            if n > 0 {
                let j = choose|j: int| 0 <= j < self.entries@.len() && self.entries@[j].1 == best;
                lemma_kv_map_index(self.entries@, j);
            }
        }
        best
    }

    /// A copy of the table.
    pub fn duplicate(&self) -> (r: Self)
        requires
            self.wf(),
        ensures
            r.wf(),
            r@ == self@,
    {
        let n = self.entries.len();
        let mut out: Vec<(u16, u64)> = Vec::new();
        let mut i: usize = 0;
        while i < n
            invariant
                n == self.entries@.len(),
                out@ =~= self.entries@.take(i as int),
                i <= n,
            decreases n - i,
        {
            out.push(self.entries[i]);
            i = i + 1;
        }
        proof {
            assert(out@ =~= self.entries@);
        }
        RegionLatencies { entries: out }
    }
}

} // verus!
