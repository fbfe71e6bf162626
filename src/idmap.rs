//! A small map keyed by proposal id.
use vstd::prelude::*;

use crate::types::Index;

verus! {

/// A map from proposal ids to values, kept in the order the ids were first
/// recorded; no id appears twice.
#[derive(Debug)]
pub struct IdMap<V> {
    entries: Vec<(Index, V)>,
}

impl<V> IdMap<V> {
    /// The recorded pairs, oldest first.
    pub closed spec fn entries_view(&self) -> Seq<(Index, V)> {
        self.entries@
    }

    pub open spec fn has_key(&self, k: Index) -> bool {
        exists|i: int| 0 <= i < self.entries_view().len() && (#[trigger] self.entries_view()[i]).0 == k
    }

    pub open spec fn wf(&self) -> bool {
        forall|i: int, j: int|
            0 <= i < self.entries_view().len() && 0 <= j < self.entries_view().len() && i != j
                ==> (#[trigger] self.entries_view()[i]).0 != (#[trigger] self.entries_view()[j]).0
    }

    /// The value recorded for `k`, if any.
    pub open spec fn lookup(&self, k: Index) -> Option<V> {
        if self.has_key(k) {
            let i = choose|i: int|
                0 <= i < self.entries_view().len() && (#[trigger] self.entries_view()[i]).0 == k;
            Some(self.entries_view()[i].1)
        } else {
            None
        }
    }

    pub fn new() -> (r: Self)
        ensures
            r.wf(),
            r.entries_view().len() == 0,
            forall|k: Index| r.lookup(k) is None,
    {
        IdMap { entries: Vec::new() }
    }

    fn position(&self, k: Index) -> (r: Option<usize>)
        requires
            self.wf(),
        ensures
            r matches Some(i) ==> i < self.entries_view().len() && self.entries_view()[i as int].0 == k
                && self.lookup(k) == Some(self.entries_view()[i as int].1),
            r is None ==> !self.has_key(k) && self.lookup(k) is None,
    {
        let mut i: usize = 0;
        while i < self.entries.len()
            invariant
                self.wf(),
                i <= self.entries@.len(),
                forall|j: int| 0 <= j < i ==> (#[trigger] self.entries@[j]).0 != k,
            decreases self.entries@.len() - i,
        {
            if self.entries[i].0 == k {
                proof {
                    let c = choose|c: int|
                        0 <= c < self.entries_view().len() && (#[trigger] self.entries_view()[c]).0 == k;
                    assert(c == i as int);
                }
                return Some(i);
            }
            i = i + 1;
        }
        None
    }

    pub fn get(&self, k: Index) -> (r: Option<&V>)
        requires
            self.wf(),
        ensures
            match self.lookup(k) {
                Some(v) => r matches Some(x) && *x == v,
                None => r is None,
            },
    {
        match self.position(k) {
            Some(i) => Some(&self.entries[i].1),
            None => None,
        }
    }

    pub fn contains_key(&self, k: Index) -> (r: bool)
        requires
            self.wf(),
        ensures
            r == self.lookup(k) is Some,
    {
        self.position(k).is_some()
    }

    /// Records `v` for `k`, replacing any earlier value.
    pub fn insert(&mut self, k: Index, v: V)
        requires
            old(self).wf(),
        ensures
            final(self).wf(),
            final(self).lookup(k) == Some(v),
            forall|q: Index| q != k ==> #[trigger] final(self).lookup(q) == old(self).lookup(q),
            final(self).entries_view().len() == old(self).entries_view().len() + if old(self).has_key(k) {
                0int
            } else {
                1int
            },
    {
        match self.position(k) {
            Some(i) => {
                self.entries.set(i, (k, v));
                proof {
                    assert forall|q: Index| q != k implies #[trigger] self.lookup(q) == old(self).lookup(q) by {
                        if old(self).has_key(q) {
                            let c = choose|c: int|
                                0 <= c < old(self).entries_view().len() && (#[trigger] old(self).entries_view()[c]).0 == q;
                            assert(self.entries_view()[c] == old(self).entries_view()[c]);
                        }
                        if self.has_key(q) {
                            let c = choose|c: int|
                                0 <= c < self.entries_view().len() && (#[trigger] self.entries_view()[c]).0 == q;
                            assert(self.entries_view()[c] == old(self).entries_view()[c]);
                        }
                    }
                    assert(self.entries_view()[i as int].0 == k);
                }
            },
            None => {
                self.entries.push((k, v));
                proof {
                    let n = old(self).entries_view().len() as int;
                    assert(self.entries_view()[n].0 == k);
                    assert forall|q: Index| q != k implies #[trigger] self.lookup(q) == old(self).lookup(q) by {
                        if old(self).has_key(q) {
                            let c = choose|c: int|
                                0 <= c < old(self).entries_view().len() && (#[trigger] old(self).entries_view()[c]).0 == q;
                            assert(self.entries_view()[c] == old(self).entries_view()[c]);
                        }
                        if self.has_key(q) {
                            let c = choose|c: int|
                                0 <= c < self.entries_view().len() && (#[trigger] self.entries_view()[c]).0 == q;
                            assert(c != n);
                            assert(self.entries_view()[c] == old(self).entries_view()[c]);
                        }
                    }
                }
            },
        }
    }

    /// Records `v` for `k` unless `k` already has a value.
    pub fn insert_if_absent(&mut self, k: Index, v: V)
        requires
            old(self).wf(),
        ensures
            final(self).wf(),
            old(self).lookup(k) is Some ==> forall|q: Index| #[trigger] final(self).lookup(q) == old(self).lookup(q),
            old(self).lookup(k) is None ==> final(self).lookup(k) == Some(v) && forall|q: Index|
                q != k ==> #[trigger] final(self).lookup(q) == old(self).lookup(q),
            final(self).entries_view().len() == old(self).entries_view().len() + if old(self).has_key(k) {
                0int
            } else {
                1int
            },
    {
        if !self.contains_key(k) {
            self.insert(k, v);
        }
    }

    /// Number of ids recorded.
    pub fn len(&self) -> (r: usize)
        ensures
            r == self.entries_view().len(),
    {
        self.entries.len()
    }

    /// The pair recorded at position `i`, oldest first.
    pub fn entry(&self, i: usize) -> (r: &(Index, V))
        requires
            i < self.entries_view().len(),
        ensures
            *r == self.entries_view()[i as int],
    {
        &self.entries[i]
    }
}

} // verus!
