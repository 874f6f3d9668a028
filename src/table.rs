//! An in-memory table of entities, one row per identity.
use crate::error::Error;
use crate::store::listed;
use vstd::prelude::*;

verus! {

/// An entity that a table can hold: it has an identity and can be copied.
pub trait Row: View + Sized {
    type Key: View;

    spec fn key(v: Self::V) -> <Self::Key as View>::V;

    fn has_key(&self, k: &Self::Key) -> (r: bool)
        ensures
            r == (Self::key(self@) == k@),
    ;

    fn identity(&self) -> (k: Self::Key)
        ensures
            k@ == Self::key(self@),
    ;

    fn copy(&self) -> (r: Self)
        ensures
            r@ == self@,
    ;
}

pub struct Table<E: Row> {
    rows: Vec<E>,
    index: Ghost<Map<<E::Key as View>::V, E::V>>,
}

impl<E: Row> View for Table<E> {
    type V = Map<<E::Key as View>::V, E::V>;

    closed spec fn view(&self) -> Self::V {
        self.index@
    }
}

impl<E: Row> Table<E> {
    /// The rows, in the order in which they were added.
    pub closed spec fn entries(&self) -> Seq<E::V> {
        self.rows@.map_values(|e: E| e@)
    }

    pub closed spec fn wf(&self) -> bool {
        &&& forall|i: int|
            0 <= i < self.rows.len() ==> {
                let v = #[trigger] self.rows@[i]@;
                self.index@.contains_key(E::key(v)) && self.index@[E::key(v)] == v
            }
        &&& forall|k| #[trigger]
            self.index@.contains_key(k) ==> exists|i: int|
                0 <= i < self.rows.len() && E::key(#[trigger] self.rows@[i]@) == k
        &&& forall|i: int, j: int|
            0 <= i < j < self.rows.len() ==> E::key(#[trigger] self.rows@[i]@) != E::key(
                #[trigger] self.rows@[j]@,
            )
    }

    pub fn new() -> (t: Table<E>)
        ensures
            t.wf(),
            t@ == Map::<<E::Key as View>::V, E::V>::empty(),
    {
        Table { rows: Vec::new(), index: Ghost(Map::empty()) }
    }

    pub fn len(&self) -> (n: usize)
        ensures
            n == self.entries().len(),
    {
        self.rows.len()
    }

    pub fn row(&self, i: usize) -> (r: &E)
        requires
            self.wf(),
            i < self.entries().len(),
        ensures
            r@ == self.entries()[i as int],
            self@.contains_key(E::key(r@)),
            self@[E::key(r@)] == r@,
    {
        &self.rows[i]
    }

    /// Every identity in the table has a row.
    pub proof fn lemma_row_of(&self, k: <E::Key as View>::V) -> (i: int)
        requires
            self.wf(),
            self@.contains_key(k),
        ensures
            0 <= i < self.entries().len(),
            E::key(self.entries()[i]) == k,
            self@[k] == self.entries()[i],
    {
        choose|i: int| 0 <= i < self.rows.len() && E::key(#[trigger] self.rows@[i]@) == k
    }

    /// No two rows share an identity.
    pub proof fn lemma_distinct(&self, i: int, j: int)
        requires
            self.wf(),
            0 <= i < j < self.entries().len(),
        ensures
            E::key(self.entries()[i]) != E::key(self.entries()[j]),
    {
    }

    /// Each entity sits under its own identity.
    pub proof fn lemma_keys(&self)
        requires
            self.wf(),
        ensures
            forall|k| #[trigger] self@.contains_key(k) ==> E::key(self@[k]) == k,
    {
        assert forall|k| #[trigger] self@.contains_key(k) implies E::key(self@[k]) == k by {
            let i = self.lemma_row_of(k);
        }
    }

    fn find(&self, k: &E::Key) -> (r: Option<usize>)
        requires
            self.wf(),
        ensures
            match r {
                Some(i) => i < self.rows.len() && E::key(self.rows@[i as int]@) == k@,
                None => !self@.contains_key(k@),
            },
    {
        let mut i: usize = 0;
        while i < self.rows.len()
            invariant
                i <= self.rows.len(),
                forall|j: int| 0 <= j < i ==> E::key(#[trigger] self.rows@[j]@) != k@,
            decreases self.rows.len() - i,
        {
            if self.rows[i].has_key(k) {
                return Some(i);
            }
            i += 1;
        }
        None
    }

    pub fn get(&self, k: &E::Key) -> (r: Option<E>)
        requires
            self.wf(),
        ensures
            match r {
                Some(e) => self@.contains_key(k@) && e@ == self@[k@],
                None => !self@.contains_key(k@),
            },
    {
        match self.find(k) {
            Some(i) => Some(self.rows[i].copy()),
            None => None,
        }
    }

    /// Adds `e` unless its identity is taken; says whether it did.
    pub fn insert(&mut self, e: E) -> (added: bool)
        requires
            old(self).wf(),
        ensures
            final(self).wf(),
            added == !old(self)@.contains_key(E::key(e@)),
            added ==> final(self)@ == old(self)@.insert(E::key(e@), e@),
            !added ==> final(self)@ == old(self)@,
    {
        let ghost k = E::key(e@);
        let id = e.identity();
        if self.find(&id).is_some() {
            return false;
        }
        let ghost old_rows = self.rows@;
        self.rows.push(e);
        self.index = Ghost(self.index@.insert(k, e@));
        assert forall|kk| #[trigger] self.index@.contains_key(kk) implies exists|i: int|
            0 <= i < self.rows.len() && E::key(#[trigger] self.rows@[i]@) == kk by {
            if kk == k {
                assert(E::key(self.rows@[old_rows.len() as int]@) == kk);
            } else {
                let w = choose|i: int| 0 <= i < old_rows.len() && E::key(#[trigger] old_rows[i]@) == kk;
                assert(self.rows@[w] == old_rows[w]);
            }
        }
        true
    }

    /// Puts `e` in place of the row under `k`, and hands back that row.
    pub fn replace(&mut self, k: &E::Key, e: E) -> (r: Option<E>)
        requires
            old(self).wf(),
            E::key(e@) == k@ || !old(self)@.contains_key(E::key(e@)),
        ensures
            final(self).wf(),
            match r {
                Some(prev) => old(self)@.contains_key(k@) && prev@ == old(self)@[k@] && final(self)@ == old(self)@.remove(k@).insert(E::key(e@), e@),
                None => !old(self)@.contains_key(k@) && final(self)@ == old(self)@,
            },
    {
        match self.find(k) {
            None => None,
            Some(i) => {
                let ghost old_rows = self.rows@;
                let ghost old_index = self.index@;
                let ghost nk = E::key(e@);
                let ghost ev = e@;
                let mut prev = e;
                self.rows.set_and_swap(i, &mut prev);
                self.index = Ghost(old_index.remove(k@).insert(nk, ev));
                assert forall|j: int| 0 <= j < self.rows.len() && j != i implies E::key(
                    #[trigger] self.rows@[j]@,
                ) != k@ && E::key(self.rows@[j]@) != nk by {
                    assert(self.rows@[j] == old_rows[j]);
                    if i < j {
                        assert(E::key(old_rows[i as int]@) != E::key(old_rows[j]@));
                    } else {
                        assert(E::key(old_rows[j]@) != E::key(old_rows[i as int]@));
                    }
                }
                assert forall|kk| #[trigger] self.index@.contains_key(kk) implies exists|j: int|
                    0 <= j < self.rows.len() && E::key(#[trigger] self.rows@[j]@) == kk by {
                    if kk == nk {
                        assert(E::key(self.rows@[i as int]@) == kk);
                    } else {
                        let w = choose|j: int|
                            0 <= j < old_rows.len() && E::key(#[trigger] old_rows[j]@) == kk;
                        assert(self.rows@[w] == old_rows[w]);
                    }
                }
                Some(prev)
            },
        }
    }

    /// Takes out the row under `k`.
    pub fn remove(&mut self, k: &E::Key) -> (r: Option<E>)
        requires
            old(self).wf(),
        ensures
            final(self).wf(),
            match r {
                Some(prev) => old(self)@.contains_key(k@) && prev@ == old(self)@[k@] && final(self)@ == old(self)@.remove(k@),
                None => !old(self)@.contains_key(k@) && final(self)@ == old(self)@,
            },
    {
        match self.find(k) {
            None => None,
            Some(i) => {
                let ghost old_rows = self.rows@;
                let ghost old_index = self.index@;
                let prev = self.rows.remove(i);
                self.index = Ghost(old_index.remove(k@));
                assert forall|j: int| 0 <= j < self.rows.len() implies {
                    let v = #[trigger] self.rows@[j]@;
                    self.index@.contains_key(E::key(v)) && self.index@[E::key(v)] == v
                } by {
                    if j < i {
                        assert(self.rows@[j] == old_rows[j]);
                        assert(E::key(old_rows[j]@) != E::key(old_rows[i as int]@));
                    } else {
                        assert(self.rows@[j] == old_rows[j + 1]);
                        assert(E::key(old_rows[i as int]@) != E::key(old_rows[j + 1]@));
                    }
                }
                assert forall|kk| #[trigger] self.index@.contains_key(kk) implies exists|j: int|
                    0 <= j < self.rows.len() && E::key(#[trigger] self.rows@[j]@) == kk by {
                    let w = choose|j: int|
                        0 <= j < old_rows.len() && E::key(#[trigger] old_rows[j]@) == kk;
                    if w < i {
                        assert(self.rows@[w] == old_rows[w]);
                    } else {
                        assert(w != i);
                        assert(self.rows@[w - 1] == old_rows[w]);
                    }
                }
                assert forall|a: int, b: int| 0 <= a < b < self.rows.len() implies E::key(
                    #[trigger] self.rows@[a]@,
                ) != E::key(#[trigger] self.rows@[b]@) by {
                    let oa = if a < i { a } else { a + 1 };
                    let ob = if b < i { b } else { b + 1 };
                    assert(self.rows@[a] == old_rows[oa]);
                    assert(self.rows@[b] == old_rows[ob]);
                    assert(E::key(old_rows[oa]@) != E::key(old_rows[ob]@));
                }
                Some(prev)
            },
        }
    }

    /// Copies of the rows that `keep` accepts; `keep` decides as `pred`.
    pub fn select<F: Fn(&E) -> bool>(&self, keep: F, Ghost(pred): Ghost<spec_fn(E::V) -> bool>) -> (out:
        Vec<E>)
        requires
            self.wf(),
            forall|e: &E| #[trigger] keep.requires((e,)),
            forall|e: &E, b: bool| keep.ensures((e,), b) ==> b == pred(e@),
        ensures
            listed(self@, pred, Ok::<Vec<E>, Error>(out)),
    {
        let mut out: Vec<E> = Vec::new();
        let mut i: usize = 0;
        while i < self.rows.len()
            invariant
                self.wf(),
                i <= self.rows.len(),
                forall|e: &E| #[trigger] keep.requires((e,)),
                forall|e: &E, b: bool| keep.ensures((e,), b) ==> b == pred(e@),
                forall|j: int|
                    0 <= j < out.len() ==> pred(#[trigger] out@[j]@) && self@.contains_value(
                        out@[j]@,
                    ),
                forall|j: int|
                    0 <= j < i && pred(#[trigger] self.rows@[j]@) ==> exists|m: int|
                        0 <= m < out.len() && #[trigger] out@[m]@ == self.rows@[j]@,
            decreases self.rows.len() - i,
        {
            let row = &self.rows[i];
            if keep(row) {
                let ghost before = out@;
                let copy = row.copy();
                out.push(copy);
                assert(self@.contains_key(E::key(row@)));
                assert forall|j: int|
                    0 <= j < i + 1 && pred(#[trigger] self.rows@[j]@) implies exists|m: int|
                    0 <= m < out.len() && #[trigger] out@[m]@ == self.rows@[j]@ by {
                    if j < i {
                        let m = choose|m: int| 0 <= m < before.len() && #[trigger] before[m]@ == self.rows@[j]@;
                        assert(out@[m] == before[m]);
                    } else {
                        assert(out@[before.len() as int]@ == self.rows@[j]@);
                    }
                }
            }
            i += 1;
        }
        assert forall|k| #[trigger]
            self@.contains_key(k) && pred(self@[k]) implies exists|m: int|
                0 <= m < out.len() && #[trigger] out@[m]@ == self@[k] by {
            let j = choose|j: int| 0 <= j < self.rows.len() && E::key(#[trigger] self.rows@[j]@) == k;
            assert(self@[k] == self.rows@[j]@);
        }
        let ghost r = Ok::<Vec<E>, Error>(out);
        assert(r->Ok_0 == out);
        assert(forall|i: int|
            0 <= i < out.len() ==> pred(#[trigger] out@[i]@) && self@.contains_value(out@[i]@));
        assert(listed(self@, pred, r));
        out
    }
}

} // verus!
