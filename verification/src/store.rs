use crate::identity::Identity;
use crate::types::{CreditLineData, CreditLineView};
use vstd::prelude::*;

verus! {

/// The records, one per borrower at most, found by the borrower's identity.
/// Nothing is ever removed, and nothing lists what is held.
pub struct CreditLineStore {
    lines: Vec<CreditLineData>,
}

impl CreditLineStore {
    /// The record at position `i` belongs to `key`.
    spec fn holds(&self, key: Seq<u8>, i: int) -> bool {
        0 <= i < self.lines@.len() && self.lines@[i].borrower@ == key
    }

    /// No borrower has two records.
    pub closed spec fn inv(&self) -> bool {
        forall|i: int, j: int|
            0 <= i < j < self.lines@.len() ==> self.lines@[i].borrower@ != self.lines@[j].borrower@
    }

    pub fn new() -> (r: CreditLineStore)
        ensures
            r.inv(),
            r@ == Map::<Seq<u8>, CreditLineView>::empty(),
    {
        let r = CreditLineStore { lines: Vec::new() };
        proof {
            assert(r@ =~= Map::<Seq<u8>, CreditLineView>::empty());
        }
        r
    }

    fn position(&self, borrower: &Identity) -> (r: Option<usize>)
        ensures
            match r {
                Some(i) => self.holds(borrower@, i as int),
                None => forall|i: int| !self.holds(borrower@, i),
            },
    {
        let mut i: usize = 0;
        while i < self.lines.len()
            invariant
                i <= self.lines.len(),
                forall|k: int| 0 <= k < i ==> !self.holds(borrower@, k),
            decreases self.lines.len() - i,
        {
            if self.lines[i].borrower.same(borrower) {
                return Some(i);
            }
            i += 1;
        }
        None
    }

    proof fn lemma_view_at(&self, i: int)
        requires
            self.inv(),
            0 <= i < self.lines@.len(),
        ensures
            self@.contains_key(self.lines@[i].borrower@),
            self@[self.lines@[i].borrower@] == self.lines@[i]@,
    {
        let key = self.lines@[i].borrower@;
        assert(self.holds(key, i));
        let j = choose|j: int| self.holds(key, j);
        assert(self.holds(key, j));
        assert(i == j);
    }

    /// Every record is held under its own borrower.
    pub proof fn lemma_keyed(&self)
        requires
            self.inv(),
        ensures
            forall|k: Seq<u8>| #[trigger] self@.contains_key(k) ==> self@[k].borrower == k,
    {
        assert forall|k: Seq<u8>| #[trigger] self@.contains_key(k) implies self@[k].borrower == k by {
            let j = choose|j: int| self.holds(k, j);
            self.lemma_view_at(j);
        }
    }

    /// The record of `borrower`, if there is one. Absence is an answer, not
    /// an error.
    pub fn get(&self, borrower: &Identity) -> (r: Option<CreditLineData>)
        requires
            self.inv(),
        ensures
            match r {
                Some(rec) => self@.contains_key(borrower@) && rec@ == self@[borrower@]
                    && rec@.borrower == borrower@,
                None => !self@.contains_key(borrower@),
            },
    {
        match self.position(borrower) {
            Some(i) => {
                proof {
                    self.lemma_view_at(i as int);
                }
                Some(self.lines[i].clone())
            },
            None => None,
        }
    }

    /// Stores `record` under its borrower, in place of any record that the
    /// borrower had.
    pub fn put(&mut self, record: CreditLineData)
        requires
            old(self).inv(),
        ensures
            final(self).inv(),
            final(self)@ == old(self)@.insert(record.borrower@, record@),
    {
        let ghost key = record.borrower@;
        let ghost rec = record@;
        match self.position(&record.borrower) {
            Some(i) => {
                self.lines.set(i, record);
                proof {
                    assert forall|a: int, b: int| 0 <= a < b < self.lines@.len() implies self.lines@[a].borrower@
                        != self.lines@[b].borrower@ by {
                        assert(old(self).lines@[a].borrower@ == self.lines@[a].borrower@);
                        assert(old(self).lines@[b].borrower@ == self.lines@[b].borrower@);
                    }
                    assert forall|k: Seq<u8>| self@.contains_key(k) <==> old(self)@.insert(
                        key,
                        rec,
                    ).contains_key(k) by {
                        if self@.contains_key(k) {
                            let j = choose|j: int| self.holds(k, j);
                            assert(old(self).holds(k, j));
                        }
                        if old(self)@.contains_key(k) {
                            let j = choose|j: int| old(self).holds(k, j);
                            assert(self.holds(k, j));
                        }
                        if k == key {
                            assert(self.holds(k, i as int));
                        }
                    }
                    assert forall|k: Seq<u8>| self@.contains_key(k) implies self@[k] == old(
                        self,
                    )@.insert(key, rec)[k] by {
                        let j = choose|j: int| self.holds(k, j);
                        self.lemma_view_at(j);
                        if k != key {
                            assert(old(self).holds(k, j));
                            old(self).lemma_view_at(j);
                        } else {
                            assert(j == i);
                        }
                    }
                    assert(self@ =~= old(self)@.insert(key, rec));
                }
            },
            None => {
                self.lines.push(record);
                proof {
                    let n = old(self).lines@.len() as int;
                    assert forall|a: int, b: int| 0 <= a < b < self.lines@.len() implies self.lines@[a].borrower@
                        != self.lines@[b].borrower@ by {
                        if b == n {
                            assert(!old(self).holds(key, a));
                        }
                    }
                    assert forall|k: Seq<u8>| self@.contains_key(k) <==> old(self)@.insert(
                        key,
                        rec,
                    ).contains_key(k) by {
                        if self@.contains_key(k) {
                            let j = choose|j: int| self.holds(k, j);
                            if j < n {
                                assert(old(self).holds(k, j));
                            }
                        }
                        if old(self)@.contains_key(k) {
                            let j = choose|j: int| old(self).holds(k, j);
                            assert(self.holds(k, j));
                        }
                        if k == key {
                            assert(self.holds(k, n));
                        }
                    }
                    assert forall|k: Seq<u8>| self@.contains_key(k) implies self@[k] == old(
                        self,
                    )@.insert(key, rec)[k] by {
                        let j = choose|j: int| self.holds(k, j);
                        self.lemma_view_at(j);
                        if k != key {
                            assert(old(self).holds(k, j));
                            old(self).lemma_view_at(j);
                        } else {
                            assert(self.holds(key, n));
                            assert(j == n);
                        }
                    }
                    assert(self@ =~= old(self)@.insert(key, rec));
                }
            },
        }
    }
}

impl View for CreditLineStore {
    type V = Map<Seq<u8>, CreditLineView>;

    closed spec fn view(&self) -> Map<Seq<u8>, CreditLineView> {
        Map::new(
            |k: Seq<u8>| exists|i: int| self.holds(k, i),
            |k: Seq<u8>| self.lines@[choose|i: int| self.holds(k, i)]@,
        )
    }
}

} // verus!
