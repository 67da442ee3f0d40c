//! A table of override patterns keyed by a `u64`, with unique keys.

use vstd::prelude::*;
use crate::pattern::Pattern;

verus! {

pub struct OverrideEntry {
    pub key: u64,
    pub pattern: Pattern,
}

/// Override patterns by key. Each key occurs at most once; the order of the
/// entries carries no meaning.
pub struct OverrideTable {
    entries: Vec<OverrideEntry>,
}

impl OverrideTable {
    /// No key occurs twice.
    pub closed spec fn wf(&self) -> bool {
        forall|i: int, j: int|
            0 <= i < j < self.entries@.len() ==> #[trigger] self.entries@[i].key
                != #[trigger] self.entries@[j].key
    }

    pub closed spec fn has(&self, k: u64) -> bool {
        exists|i: int| 0 <= i < self.entries@.len() && #[trigger] self.entries@[i].key == k
    }

    pub closed spec fn at(&self, k: u64) -> Pattern {
        let i = choose|i: int| 0 <= i < self.entries@.len() && #[trigger] self.entries@[i].key == k;
        self.entries@[i].pattern
    }

    /// The table as a map from key to pattern.
    pub closed spec fn view(&self) -> Map<u64, Pattern> {
        Map::new(|k: u64| self.has(k), |k: u64| self.at(k))
    }

    proof fn lemma_at(&self, i: int)
        requires
            self.wf(),
            0 <= i < self.entries@.len(),
        ensures
            self@.contains_key(self.entries@[i].key),
            self@[self.entries@[i].key] == self.entries@[i].pattern,
    {
        let k = self.entries@[i].key;
        assert(self.has(k));
        let j = choose|j: int| 0 <= j < self.entries@.len() && #[trigger] self.entries@[j].key == k;
        assert(j == i) by {
            if j < i {
                assert(self.entries@[j].key != self.entries@[i].key);
            } else if i < j {
                assert(self.entries@[i].key != self.entries@[j].key);
            }
        }
    }

    pub fn new() -> (r: OverrideTable)
        ensures
            r.wf(),
            r@ == Map::<u64, Pattern>::empty(),
    {
        let r = OverrideTable { entries: Vec::new() };
        assert(r@ =~= Map::<u64, Pattern>::empty());
        r
    }

    fn find(&self, k: u64) -> (r: Option<usize>)
        requires
            self.wf(),
        ensures
            match r {
                Some(i) => i < self.entries@.len() && self.entries@[i as int].key == k,
                None => !self@.contains_key(k),
            },
    {
        let mut i: usize = 0;
        while i < self.entries.len()
            invariant
                i <= self.entries@.len(),
                forall|j: int| 0 <= j < i ==> #[trigger] self.entries@[j].key != k,
            decreases self.entries@.len() - i,
        {
            if self.entries[i].key == k {
                return Some(i);
            }
            i += 1;
        }
        None
    }

    pub fn contains(&self, k: u64) -> (r: bool)
        requires
            self.wf(),
        ensures
            r == self@.contains_key(k),
    {
        match self.find(k) {
            Some(i) => {
                proof {
                    self.lemma_at(i as int);
                }
                true
            },
            None => false,
        }
    }

    /// Adds an override for `k`, or replaces the one there is.
    pub fn set(&mut self, k: u64, p: Pattern)
        requires
            old(self).wf(),
        ensures
            final(self).wf(),
            final(self)@ == old(self)@.insert(k, p),
    {
        let ghost before = *self;
        match self.find(k) {
            Some(i) => {
                self.entries.set(i, OverrideEntry { key: k, pattern: p });
                proof {
                    assert forall|q: u64| #[trigger] self@.contains_key(q) == before@.insert(
                        k,
                        p,
                    ).contains_key(q) by {
                        if before.has(q) {
                            let j = choose|j: int|
                                0 <= j < before.entries@.len() && #[trigger] before.entries@[j].key
                                    == q;
                            assert(self.entries@[j].key == q);
                        }
                        if self.has(q) {
                            let j = choose|j: int|
                                0 <= j < self.entries@.len() && #[trigger] self.entries@[j].key
                                    == q;
                            assert(before.entries@[j].key == q);
                        }
                    }
                    assert forall|q: u64| #[trigger] self@.contains_key(q) implies self@[q]
                        == before@.insert(k, p)[q] by {
                        let j = choose|j: int|
                            0 <= j < self.entries@.len() && #[trigger] self.entries@[j].key == q;
                        self.lemma_at(j);
                        if j != i {
                            before.lemma_at(j);
                        }
                    }
                    assert(self@ =~= before@.insert(k, p));
                }
            },
            None => {
                self.entries.push(OverrideEntry { key: k, pattern: p });
                proof {
                    let n = before.entries@.len() as int;
                    assert forall|q: u64| #[trigger] self@.contains_key(q) == before@.insert(
                        k,
                        p,
                    ).contains_key(q) by {
                        if before.has(q) {
                            let j = choose|j: int|
                                0 <= j < before.entries@.len() && #[trigger] before.entries@[j].key
                                    == q;
                            assert(self.entries@[j].key == q);
                        }
                        if q == k {
                            assert(self.entries@[n].key == q);
                        }
                        if self.has(q) && q != k {
                            let j = choose|j: int|
                                0 <= j < self.entries@.len() && #[trigger] self.entries@[j].key
                                    == q;
                            assert(before.entries@[j].key == q);
                        }
                    }
                    assert forall|q: u64| #[trigger] self@.contains_key(q) implies self@[q]
                        == before@.insert(k, p)[q] by {
                        let j = choose|j: int|
                            0 <= j < self.entries@.len() && #[trigger] self.entries@[j].key == q;
                        self.lemma_at(j);
                        if j != n {
                            before.lemma_at(j);
                        }
                    }
                    assert(self@ =~= before@.insert(k, p));
                }
            },
        }
    }

    /// Removes the override for `k`, handing it back if there was one.
    pub fn remove(&mut self, k: u64) -> (r: Option<Pattern>)
        requires
            old(self).wf(),
        ensures
            final(self).wf(),
            final(self)@ == old(self)@.remove(k),
            r == (if old(self)@.contains_key(k) {
                Some(old(self)@[k])
            } else {
                None
            }),
    {
        let ghost before = *self;
        match self.find(k) {
            Some(i) => {
                proof {
                    before.lemma_at(i as int);
                }
                let e = self.entries.remove(i);
                proof {
                    assert forall|a: int, b: int|
                        0 <= a < b < self.entries@.len() implies #[trigger] self.entries@[a].key
                        != #[trigger] self.entries@[b].key by {
                        let a0 = if a < i { a } else { a + 1 };
                        let b0 = if b < i { b } else { b + 1 };
                        assert(self.entries@[a] == before.entries@[a0]);
                        assert(self.entries@[b] == before.entries@[b0]);
                        assert(before.entries@[a0].key != before.entries@[b0].key);
                    }
                    assert forall|q: u64| #[trigger] self@.contains_key(q) == before@.remove(
                        k,
                    ).contains_key(q) by {
                        if before.has(q) && q != k {
                            let j = choose|j: int|
                                0 <= j < before.entries@.len() && #[trigger] before.entries@[j].key
                                    == q;
                            assert(j != i);
                            let j1 = if j < i { j } else { j - 1 };
                            assert(self.entries@[j1].key == q);
                        }
                        if self.has(q) {
                            let j = choose|j: int|
                                0 <= j < self.entries@.len() && #[trigger] self.entries@[j].key
                                    == q;
                            let j0 = if j < i { j } else { j + 1 };
                            assert(before.entries@[j0].key == q);
                            assert(j0 != i ==> before.entries@[j0].key != before.entries@[i as int].key);
                        }
                    }
                    assert forall|q: u64| #[trigger] self@.contains_key(q) implies self@[q]
                        == before@.remove(k)[q] by {
                        let j = choose|j: int|
                            0 <= j < self.entries@.len() && #[trigger] self.entries@[j].key == q;
                        self.lemma_at(j);
                        let j0 = if j < i { j } else { j + 1 };
                        assert(self.entries@[j] == before.entries@[j0]);
                        before.lemma_at(j0);
                    }
                    assert(self@ =~= before@.remove(k));
                }
                Some(e.pattern)
            },
            None => {
                assert(self@ =~= before@.remove(k));
                None
            },
        }
    }

    /// The intensity of the override for `k` at `time_ms`, with no draw.
    pub fn value_of(&self, k: u64, time_ms: u64) -> (r: i32)
        requires
            self.wf(),
            self@.contains_key(k),
        ensures
            r == self@[k].value(time_ms as int),
    {
        match self.find(k) {
            Some(i) => {
                proof {
                    self.lemma_at(i as int);
                }
                self.entries[i].pattern.value_at(time_ms)
            },
            None => {
                proof {
                    assert(false);
                }
                0
            },
        }
    }

    /// Lets every override in the table draw once, as a sample at `time_ms`
    /// and clock reading `clock_ms` would.
    pub fn step_all(&mut self, time_ms: u64, clock_ms: u64)
        requires
            old(self).wf(),
        ensures
            final(self).wf(),
            final(self)@.dom() == old(self)@.dom(),
            forall|k: u64| #[trigger]
                old(self)@.contains_key(k) ==> old(self)@[k].stepped(
                    final(self)@[k],
                    time_ms as int,
                    clock_ms as int,
                ),
    {
        let ghost before = *self;
        let mut i: usize = 0;
        while i < self.entries.len()
            invariant
                self.entries@.len() == before.entries@.len(),
                i <= self.entries@.len(),
                forall|j: int|
                    0 <= j < self.entries@.len() ==> #[trigger] self.entries@[j].key
                        == before.entries@[j].key,
                forall|j: int| 0 <= j < i ==> #[trigger] before.entries@[j].pattern.stepped(
                    self.entries@[j].pattern, time_ms as int, clock_ms as int),
                forall|j: int| i <= j < self.entries@.len() ==> #[trigger] self.entries@[j].pattern
                    == before.entries@[j].pattern,
            decreases self.entries@.len() - i,
        {
            self.entries[i].pattern.step(time_ms, clock_ms);
            i += 1;
        }
        proof {
            assert forall|a: int, b: int|
                0 <= a < b < self.entries@.len() implies #[trigger] self.entries@[a].key
                != #[trigger] self.entries@[b].key by {
                assert(before.entries@[a].key != before.entries@[b].key);
            }
            assert forall|q: u64| #[trigger] self@.contains_key(q) == before@.contains_key(q) by {
                if before.has(q) {
                    let j = choose|j: int|
                        0 <= j < before.entries@.len() && #[trigger] before.entries@[j].key == q;
                    assert(self.entries@[j].key == q);
                }
                if self.has(q) {
                    let j = choose|j: int|
                        0 <= j < self.entries@.len() && #[trigger] self.entries@[j].key == q;
                    assert(before.entries@[j].key == q);
                }
            }
            assert(self@.dom() =~= before@.dom());
            assert forall|q: u64| #[trigger] before@.contains_key(q) implies before@[q].stepped(
                self@[q],
                time_ms as int,
                clock_ms as int,
            ) by {
                let j = choose|j: int|
                    0 <= j < before.entries@.len() && #[trigger] before.entries@[j].key == q;
                before.lemma_at(j);
                self.lemma_at(j);
            }
        }
    }

    /// Resets every override in the table.
    pub fn reset_all(&mut self)
        requires
            old(self).wf(),
        ensures
            final(self).wf(),
            final(self)@.dom() == old(self)@.dom(),
            forall|k: u64| #[trigger]
                old(self)@.contains_key(k) ==> old(self)@[k].reset_to(final(self)@[k]),
    {
        let ghost before = *self;
        let mut i: usize = 0;
        while i < self.entries.len()
            invariant
                self.entries@.len() == before.entries@.len(),
                i <= self.entries@.len(),
                forall|j: int|
                    0 <= j < self.entries@.len() ==> #[trigger] self.entries@[j].key
                        == before.entries@[j].key,
                forall|j: int| 0 <= j < i ==> #[trigger] before.entries@[j].pattern.reset_to(
                    self.entries@[j].pattern),
                forall|j: int| i <= j < self.entries@.len() ==> #[trigger] self.entries@[j].pattern
                    == before.entries@[j].pattern,
            decreases self.entries@.len() - i,
        {
            self.entries[i].pattern.reset();
            i += 1;
        }
        proof {
            assert forall|a: int, b: int|
                0 <= a < b < self.entries@.len() implies #[trigger] self.entries@[a].key
                != #[trigger] self.entries@[b].key by {
                assert(before.entries@[a].key != before.entries@[b].key);
            }
            assert forall|q: u64| #[trigger] self@.contains_key(q) == before@.contains_key(q) by {
                if before.has(q) {
                    let j = choose|j: int|
                        0 <= j < before.entries@.len() && #[trigger] before.entries@[j].key == q;
                    assert(self.entries@[j].key == q);
                }
                if self.has(q) {
                    let j = choose|j: int|
                        0 <= j < self.entries@.len() && #[trigger] self.entries@[j].key == q;
                    assert(before.entries@[j].key == q);
                }
            }
            assert(self@.dom() =~= before@.dom());
            assert forall|q: u64| #[trigger] before@.contains_key(q) implies before@[q].reset_to(
                self@[q],
            ) by {
                let j = choose|j: int|
                    0 <= j < before.entries@.len() && #[trigger] before.entries@[j].key == q;
                before.lemma_at(j);
                self.lemma_at(j);
            }
        }
    }
}

} // verus!
