//! A header table: header names mapped to values.
//!
//! The gateway builds its responses' headers by inserting into such a
//! table; inserting under an existing name replaces the value.

use crate::kvseq::{kv_map, kv_unique, lemma_kv_map_dom, lemma_kv_map_index, lemma_kv_map_push,
    lemma_kv_map_update};
use vstd::prelude::*;

verus! {

/// The pairs of a header list, as mathematical values.
pub open spec fn pairs_view(s: Seq<(String, String)>) -> Seq<(Seq<char>, Seq<char>)> {
    s.map_values(|p: (String, String)| (p.0@, p.1@))
}

/// A table of headers: names mapped to values, names pairwise distinct.
#[derive(Debug)]
pub struct Headers {
    entries: Vec<(String, String)>,
}

impl View for Headers {
    type V = Map<Seq<char>, Seq<char>>;

    closed spec fn view(&self) -> Map<Seq<char>, Seq<char>> {
        kv_map(pairs_view(self.entries@))
    }
}

impl Headers {
    /// The header names are pairwise distinct.
    pub closed spec fn wf(&self) -> bool {
        kv_unique(pairs_view(self.entries@))
    }

    /// An empty table.
    pub fn new() -> (r: Headers)
        ensures
            r.wf(),
            r@ == Map::<Seq<char>, Seq<char>>::empty(),
    {
        proof {
            assert(pairs_view(Seq::empty()) =~= Seq::<(Seq<char>, Seq<char>)>::empty());
        }
        Headers { entries: Vec::new() }
    }

    /// The number of headers.
    pub fn len(&self) -> (r: usize)
        requires
            self.wf(),
        ensures
            r == self@.dom().len(),
    {
        proof {
            crate::kvseq::lemma_kv_map_len(pairs_view(self.entries@));
        }
        self.entries.len()
    }

    /// The header pairs, in insertion order.
    pub fn pairs(&self) -> (r: &Vec<(String, String)>)
        requires
            self.wf(),
        ensures
            r@.len() == self.spec_len(),
            kv_map(pairs_view(r@)) == self@,
            kv_unique(pairs_view(r@)),
            forall|i: int|
                0 <= i < r@.len() ==> self@.contains_key(#[trigger] r@[i].0@) && self@[r@[i].0@]
                    == r@[i].1@,
    {
        proof {
            lemma_kv_map_dom(pairs_view(self.entries@));
        }
        assert forall|i: int| 0 <= i < self.entries@.len() implies self@.contains_key(
            #[trigger] self.entries@[i].0@,
        ) && self@[self.entries@[i].0@] == self.entries@[i].1@ by {
            assert(pairs_view(self.entries@)[i] == (self.entries@[i].0@, self.entries@[i].1@));
            lemma_kv_map_index(pairs_view(self.entries@), i);
        }
        &self.entries
    }

    /// The number of entries of the table.
    pub closed spec fn spec_len(&self) -> nat {
        self.entries@.len()
    }

    /// The value stored under a name, if any.
    pub fn get(&self, name: &str) -> (r: Option<&String>)
        requires
            self.wf(),
        ensures
            match r {
                Some(v) => self@.contains_key(name@) && self@[name@] == v@,
                None => !self@.contains_key(name@),
            },
    {
        proof {
            lemma_kv_map_dom(pairs_view(self.entries@));
        }
        let n = self.entries.len();
        let mut i: usize = 0;
        while i < n
            invariant
                n == self.entries@.len(),
                i <= n,
                self.wf(),
                forall|j: int| 0 <= j < i ==> pairs_view(self.entries@)[j].0 != name@,
            decreases n - i,
        {
            proof {
                assert(pairs_view(self.entries@)[i as int] == (
                    self.entries@[i as int].0@,
                    self.entries@[i as int].1@,
                ));
            }
            if crate::strutil::str_eq(self.entries[i].0.as_str(), name) {
                proof {
                    lemma_kv_map_index(pairs_view(self.entries@), i as int);
                }
                return Some(&self.entries[i].1);
            }
            i = i + 1;
        }
        None
    }

    /// Stores a value under a name, replacing any previous value.
    pub fn insert(&mut self, name: String, value: String)
        requires
            old(self).wf(),
        ensures
            final(self).wf(),
            final(self)@ == old(self)@.insert(name@, value@),
    {
        proof {
            lemma_kv_map_dom(pairs_view(self.entries@));
        }
        let n = self.entries.len();
        let mut i: usize = 0;
        while i < n
            invariant
                n == self.entries@.len(),
                i <= n,
                self.wf(),
                self == old(self),
                forall|j: int| 0 <= j < i ==> pairs_view(self.entries@)[j].0 != name@,
            decreases n - i,
        {
            proof {
                assert(pairs_view(self.entries@)[i as int] == (
                    self.entries@[i as int].0@,
                    self.entries@[i as int].1@,
                ));
            }
            if self.entries[i].0 == name {
                let ghost before = self.entries@;
                self.entries[i] = (name, value);
                proof {
                    let pv = pairs_view(before);
                    assert(pairs_view(self.entries@) =~= pv.update(i as int, (pv[i as int].0, value@)));
                    lemma_kv_map_update(pv, i as int, value@);
                }
                return ;
            }
            i = i + 1;
        }
        let ghost before = self.entries@;
        self.entries.push((name, value));
        proof {
            let pv = pairs_view(before);
            assert(pairs_view(self.entries@) =~= pv.push((name@, value@)));
            lemma_kv_map_push(pv, name@, value@);
            assert(kv_unique(pairs_view(self.entries@)));
        }
    }

    /// A copy of the table.
    pub fn duplicate(&self) -> (r: Headers)
        requires
            self.wf(),
        ensures
            r.wf(),
            r@ == self@,
    {
        let n = self.entries.len();
        let mut out: Vec<(String, String)> = Vec::new();
        let mut i: usize = 0;
        while i < n
            invariant
                n == self.entries@.len(),
                i <= n,
                out@.len() == i,
                pairs_view(out@) =~= pairs_view(self.entries@).take(i as int),
            decreases n - i,
        {
            let name = self.entries[i].0.clone();
            let value = self.entries[i].1.clone();
            proof {
                assert(name@ == self.entries@[i as int].0@);
                assert(value@ == self.entries@[i as int].1@);
            }
            let ghost before = out@;
            out.push((name, value));
            proof {
                assert(out@ == before.push((name, value)));
                assert(out@[i as int].0@ == self.entries@[i as int].0@);
                assert(out@[i as int].1@ == self.entries@[i as int].1@);
                assert forall|j: int| 0 <= j < out@.len() implies #[trigger] pairs_view(out@)[j]
                    == pairs_view(self.entries@).take(i as int + 1)[j] by {
                    assert(pairs_view(out@)[j] == (out@[j].0@, out@[j].1@));
                    if j < i {
                        assert(pairs_view(before)[j] == pairs_view(self.entries@).take(i as int)[j]);
                        assert(out@[j] == before[j]);
                    }
                }
                assert(pairs_view(out@) =~= pairs_view(self.entries@).take(i as int + 1));
            }
            i = i + 1;
        }
        proof {
            assert(pairs_view(out@) =~= pairs_view(self.entries@));
        }
        Headers { entries: out }
    }
}

} // verus!
