use vstd::prelude::*;
use crate::types::{bytes_eq, Address};

verus! {

/// A key that can be compared for equality of its mathematical value.
pub trait TableKey: View + Sized {
    fn same_key(&self, other: &Self) -> (r: bool)
        ensures
            r == (self@ == other@),
    ;
}

impl TableKey for u64 {
    fn same_key(&self, other: &Self) -> (r: bool) {
        *self == *other
    }
}

impl TableKey for Vec<u8> {
    fn same_key(&self, other: &Self) -> (r: bool) {
        bytes_eq(self, other)
    }
}

impl TableKey for Address {
    fn same_key(&self, other: &Self) -> (r: bool) {
        self.same(other)
    }
}

impl TableKey for (Address, Address) {
    fn same_key(&self, other: &Self) -> (r: bool) {
        self.0.same(&other.0) && self.1.same(&other.1)
    }
}

/// A value that can be copied with its mathematical value kept.
pub trait Dup: View + Sized {
    fn dup(&self) -> (r: Self)
        ensures
            r@ == self@,
    ;
}

impl Dup for u64 {
    fn dup(&self) -> (r: Self) {
        *self
    }
}

impl Dup for i128 {
    fn dup(&self) -> (r: Self) {
        *self
    }
}

impl Dup for bool {
    fn dup(&self) -> (r: Self) {
        *self
    }
}

impl Dup for Vec<u8> {
    fn dup(&self) -> (r: Self) {
        self.clone()
    }
}

impl Dup for Vec<u64> {
    fn dup(&self) -> (r: Self) {
        let mut out: Vec<u64> = Vec::new();
        let mut i: usize = 0;
        while i < self.len()
            invariant
                i <= self@.len(),
                out@ == self@.subrange(0, i as int),
            decreases self.len() - i,
        {
            out.push(self[i]);
            i = i + 1;
            assert(out@ =~= self@.subrange(0, i as int));
        }
        assert(out@ =~= self@);
        out
    }
}

impl Dup for Address {
    fn dup(&self) -> (r: Self) {
        self.duplicate()
    }
}

impl Dup for (Address, Address) {
    fn dup(&self) -> (r: Self) {
        (self.0.duplicate(), self.1.duplicate())
    }
}

/// A finite map held as parallel lists of keys and values, keys compared by
/// their mathematical value.
pub struct Table<K, V> {
    keys: Vec<K>,
    vals: Vec<V>,
}

impl<K: View, V: View> Table<K, V> {
    /// The lists have equal length and no key occurs twice.
    pub closed spec fn wf(&self) -> bool {
        &&& self.keys@.len() == self.vals@.len()
        &&& forall|i: int, j: int|
            0 <= i < self.keys@.len() && 0 <= j < self.keys@.len() && i != j
                ==> #[trigger] self.keys@[i]@ != #[trigger] self.keys@[j]@
    }

    spec fn has_key_at(&self, k: K::V, i: int) -> bool {
        0 <= i < self.keys@.len() && self.keys@[i]@ == k
    }

    spec fn index_of(&self, k: K::V) -> int {
        choose|i: int| self.has_key_at(k, i)
    }

    /// The map that the table holds.
    pub closed spec fn spec_map(&self) -> Map<K::V, V::V> {
        Map::new(
            |k: K::V| exists|i: int| self.has_key_at(k, i),
            |k: K::V| self.vals@[self.index_of(k)]@,
        )
    }

    proof fn lemma_lookup(&self, k: K::V, i: int)
        requires
            self.wf(),
            self.has_key_at(k, i),
        ensures
            self.spec_map().contains_key(k),
            self.spec_map()[k] == self.vals@[i]@,
    {
        assert(self.has_key_at(k, i));
        let j = self.index_of(k);
        assert(self.has_key_at(k, j));
        assert(i == j);
    }

    /// The table holds as many entries as it has keys.
    proof fn lemma_dom_len(&self)
        requires
            self.wf(),
        ensures
            self@.dom().len() == self.keys@.len(),
    {
        let ks = Seq::new(self.keys@.len(), |i: int| self.keys@[i]@);
        assert(ks.no_duplicates()) by {
            assert forall|a: int, b: int| 0 <= a < ks.len() && 0 <= b < ks.len() && a != b
                implies ks[a] != ks[b] by {
                assert(self.keys@[a]@ != self.keys@[b]@);
            }
        }
        ks.unique_seq_to_set();
        assert forall|k: K::V| #[trigger] ks.to_set().contains(k) == self@.dom().contains(k) by {
            if ks.to_set().contains(k) {
                let w = choose|w: int| 0 <= w < ks.len() && ks[w] == k;
                assert(self.has_key_at(k, w));
            }
            if self@.dom().contains(k) {
                let w = choose|w: int| self.has_key_at(k, w);
                assert(ks[w] == k);
                assert(ks.contains(k));
            }
        }
        assert(ks.to_set() =~= self@.dom());
    }
}

impl<K: View, V: View> View for Table<K, V> {
    type V = Map<K::V, V::V>;

    open spec fn view(&self) -> Map<K::V, V::V> {
        self.spec_map()
    }
}

impl<K: TableKey, V: View> Table<K, V> {
    /// An empty table.
    pub fn new() -> (t: Self)
        ensures
            t.wf(),
            t@ == Map::<K::V, V::V>::empty(),
    {
        let t = Table { keys: Vec::new(), vals: Vec::new() };
        assert(t.spec_map() =~= Map::<K::V, V::V>::empty());
        t
    }

    fn find(&self, k: &K) -> (r: Option<usize>)
        requires
            self.wf(),
        ensures
            match r {
                Some(i) => self.has_key_at(k@, i as int),
                None => !self@.contains_key(k@),
            },
    {
        let mut i: usize = 0;
        while i < self.keys.len()
            invariant
                self.wf(),
                i <= self.keys@.len(),
                forall|j: int| 0 <= j < i ==> self.keys@[j]@ != k@,
            decreases self.keys.len() - i,
        {
            if self.keys[i].same_key(k) {
                return Some(i);
            }
            i = i + 1;
        }
        None
    }

    /// The value stored under the key, if any.
    pub fn get(&self, k: &K) -> (r: Option<&V>)
        requires
            self.wf(),
        ensures
            match r {
                Some(v) => self@.contains_key(k@) && v@ == self@[k@],
                None => !self@.contains_key(k@),
            },
    {
        match self.find(k) {
            Some(i) => {
                proof {
                    self.lemma_lookup(k@, i as int);
                }
                Some(&self.vals[i])
            },
            None => None,
        }
    }

    /// Whether the key is present.
    pub fn contains_key(&self, k: &K) -> (r: bool)
        requires
            self.wf(),
        ensures
            r == self@.contains_key(k@),
    {
        match self.find(k) {
            Some(i) => {
                proof {
                    self.lemma_lookup(k@, i as int);
                }
                true
            },
            None => false,
        }
    }

    /// Stores `v` under `k`, replacing any earlier value.
    pub fn insert(&mut self, k: K, v: V)
        requires
            old(self).wf(),
        ensures
            final(self).wf(),
            final(self)@ == old(self)@.insert(k@, v@),
    {
        let ghost kv = k@;
        let ghost vv = v@;
        match self.find(&k) {
            Some(i) => {
                let ghost pre = *self;
                self.vals.set(i, v);
                proof {
                    assert forall|x: K::V| #[trigger] self.spec_map().contains_key(x)
                        == pre.spec_map().insert(kv, vv).contains_key(x) by {
                        if pre.spec_map().contains_key(x) {
                            let w = choose|w: int| pre.has_key_at(x, w);
                            assert(self.has_key_at(x, w));
                        }
                        if self.spec_map().contains_key(x) {
                            let w = choose|w: int| self.has_key_at(x, w);
                            assert(pre.has_key_at(x, w));
                        }
                    }
                    assert forall|x: K::V| #[trigger] self.spec_map().contains_key(x)
                        implies self.spec_map()[x] == pre.spec_map().insert(kv, vv)[x] by {
                        let w = choose|w: int| self.has_key_at(x, w);
                        self.lemma_lookup(x, w);
                        if x == kv {
                            assert(w == i);
                        } else {
                            assert(pre.has_key_at(x, w));
                            pre.lemma_lookup(x, w);
                        }
                    }
                    assert(self.spec_map() =~= pre.spec_map().insert(kv, vv));
                }
            },
            None => {
                let ghost pre = *self;
                self.keys.push(k);
                self.vals.push(v);
                proof {
                    let n = pre.keys@.len() as int;
                    assert(self.has_key_at(kv, n));
                    assert forall|j: int| 0 <= j < n implies pre.keys@[j]@ != kv by {
                        if pre.keys@[j]@ == kv {
                            assert(pre.has_key_at(kv, j));
                        }
                    }
                    assert forall|a: int, b: int|
                        0 <= a < self.keys@.len() && 0 <= b < self.keys@.len() && a != b
                            implies #[trigger] self.keys@[a]@ != #[trigger] self.keys@[b]@ by {
                        if a < n {
                            assert(self.keys@[a] == pre.keys@[a]);
                        }
                        if b < n {
                            assert(self.keys@[b] == pre.keys@[b]);
                        }
                    }
                    assert(self.wf());
                    assert forall|x: K::V| #[trigger] self.spec_map().contains_key(x)
                        == pre.spec_map().insert(kv, vv).contains_key(x) by {
                        if pre.spec_map().contains_key(x) {
                            let w = choose|w: int| pre.has_key_at(x, w);
                            assert(self.has_key_at(x, w));
                        }
                        if self.spec_map().contains_key(x) && x != kv {
                            let w = choose|w: int| self.has_key_at(x, w);
                            assert(pre.has_key_at(x, w));
                        }
                    }
                    assert forall|x: K::V| #[trigger] self.spec_map().contains_key(x)
                        implies self.spec_map()[x] == pre.spec_map().insert(kv, vv)[x] by {
                        let w = choose|w: int| self.has_key_at(x, w);
                        self.lemma_lookup(x, w);
                        if x == kv {
                            assert(w == n);
                        } else {
                            assert(pre.has_key_at(x, w));
                            pre.lemma_lookup(x, w);
                        }
                    }
                    assert(self.spec_map() =~= pre.spec_map().insert(kv, vv));
                }
            },
        }
    }

    /// Removes the key, returning the value it held.
    pub fn remove(&mut self, k: &K) -> (r: Option<V>)
        requires
            old(self).wf(),
        ensures
            final(self).wf(),
            final(self)@ == old(self)@.remove(k@),
            match r {
                Some(v) => old(self)@.contains_key(k@) && v@ == old(self)@[k@],
                None => !old(self)@.contains_key(k@),
            },
    {
        match self.find(k) {
            Some(i) => {
                let ghost pre = *self;
                proof {
                    pre.lemma_lookup(k@, i as int);
                }
                let _key = self.keys.remove(i);
                let v = self.vals.remove(i);
                proof {
                    let kv = k@;
                    assert forall|a: int, b: int|
                        0 <= a < self.keys@.len() && 0 <= b < self.keys@.len() && a != b
                            implies #[trigger] self.keys@[a]@ != #[trigger] self.keys@[b]@ by {
                        let a2 = if a < i { a } else { a + 1 };
                        let b2 = if b < i { b } else { b + 1 };
                        assert(self.keys@[a] == pre.keys@[a2]);
                        assert(self.keys@[b] == pre.keys@[b2]);
                    }
                    assert forall|x: K::V| #[trigger] self.spec_map().contains_key(x)
                        == pre.spec_map().remove(kv).contains_key(x) by {
                        if pre.spec_map().contains_key(x) && x != kv {
                            let w = choose|w: int| pre.has_key_at(x, w);
                            assert(w != i);
                            let w2 = if w < i { w } else { w - 1 };
                            assert(self.keys@[w2] == pre.keys@[w]);
                            assert(self.has_key_at(x, w2));
                        }
                        if self.spec_map().contains_key(x) {
                            let w = choose|w: int| self.has_key_at(x, w);
                            let w2 = if w < i { w } else { w + 1 };
                            assert(self.keys@[w] == pre.keys@[w2]);
                            assert(pre.has_key_at(x, w2));
                            assert(w2 != i);
                        }
                    }
                    assert forall|x: K::V| #[trigger] self.spec_map().contains_key(x)
                        implies self.spec_map()[x] == pre.spec_map().remove(kv)[x] by {
                        let w = choose|w: int| self.has_key_at(x, w);
                        self.lemma_lookup(x, w);
                        let w2 = if w < i { w } else { w + 1 };
                        assert(self.keys@[w] == pre.keys@[w2]);
                        assert(self.vals@[w] == pre.vals@[w2]);
                        assert(pre.has_key_at(x, w2));
                        pre.lemma_lookup(x, w2);
                    }
                    assert(self.spec_map() =~= pre.spec_map().remove(kv));
                }
                Some(v)
            },
            None => {
                proof {
                    assert(self.spec_map() =~= self.spec_map().remove(k@));
                }
                None
            },
        }
    }
}

impl<K: View + Dup, V: View + Dup> Table<K, V> {
    /// The keys of the table, each once, in the order they were first
    /// inserted.
    pub fn keys(&self) -> (r: Vec<K>)
        requires
            self.wf(),
        ensures
            r@.len() == self@.dom().len(),
            forall|i: int| 0 <= i < r@.len() ==> #[trigger] self@.contains_key(r@[i]@),
            forall|k: K::V| #[trigger] self@.contains_key(k) ==> exists|i: int| 0 <= i < r@.len() && r@[i]@ == k,
            forall|i: int, j: int| 0 <= i < r@.len() && 0 <= j < r@.len() && i != j
                ==> #[trigger] r@[i]@ != #[trigger] r@[j]@,
    {
        let mut out: Vec<K> = Vec::new();
        let mut i: usize = 0;
        while i < self.keys.len()
            invariant
                self.wf(),
                i <= self.keys@.len(),
                out@.len() == i,
                forall|j: int| 0 <= j < i ==> #[trigger] out@[j]@ == self.keys@[j]@,
            decreases self.keys.len() - i,
        {
            out.push(self.keys[i].dup());
            i = i + 1;
        }
        proof {
            assert forall|j: int| 0 <= j < out@.len() implies #[trigger] self@.contains_key(out@[j]@) by {
                self.lemma_lookup(out@[j]@, j);
            }
            assert forall|k: K::V| #[trigger] self@.contains_key(k) implies exists|j: int|
                0 <= j < out@.len() && out@[j]@ == k by {
                let w = choose|w: int| self.has_key_at(k, w);
                assert(out@[w]@ == k);
            }
            assert forall|a: int, b: int| 0 <= a < out@.len() && 0 <= b < out@.len() && a != b
                implies #[trigger] out@[a]@ != #[trigger] out@[b]@ by {
                assert(self.keys@[a]@ != self.keys@[b]@);
            }
            self.lemma_dom_len();
        }
        out
    }

    /// A copy of the table.
    pub fn duplicate(&self) -> (r: Self)
        requires
            self.wf(),
        ensures
            r.wf(),
            r@ == self@,
    {
        let mut keys: Vec<K> = Vec::new();
        let mut vals: Vec<V> = Vec::new();
        let mut i: usize = 0;
        while i < self.keys.len()
            invariant
                self.wf(),
                i <= self.keys@.len(),
                keys@.len() == i,
                vals@.len() == i,
                forall|j: int| 0 <= j < i ==> keys@[j]@ == self.keys@[j]@,
                forall|j: int| 0 <= j < i ==> vals@[j]@ == self.vals@[j]@,
            decreases self.keys.len() - i,
        {
            keys.push(self.keys[i].dup());
            vals.push(self.vals[i].dup());
            i = i + 1;
        }
        let r = Table { keys, vals };
        proof {
            assert forall|a: int, b: int|
                0 <= a < r.keys@.len() && 0 <= b < r.keys@.len() && a != b
                    implies #[trigger] r.keys@[a]@ != #[trigger] r.keys@[b]@ by {
                assert(self.keys@[a]@ != self.keys@[b]@);
            }
            assert forall|k: K::V, j: int| #[trigger] r.has_key_at(k, j) == self.has_key_at(k, j) by {}
            assert forall|k: K::V| #[trigger] r.spec_map().contains_key(k)
                == self.spec_map().contains_key(k) by {
                if self.spec_map().contains_key(k) {
                    let w = choose|w: int| self.has_key_at(k, w);
                    assert(r.has_key_at(k, w));
                }
                if r.spec_map().contains_key(k) {
                    let w = choose|w: int| r.has_key_at(k, w);
                    assert(self.has_key_at(k, w));
                }
            }
            assert forall|k: K::V| #[trigger] r.spec_map().contains_key(k)
                implies r.spec_map()[k] == self.spec_map()[k] by {
                let w = choose|w: int| r.has_key_at(k, w);
                r.lemma_lookup(k, w);
                assert(self.has_key_at(k, w));
                self.lemma_lookup(k, w);
            }
            assert(r.spec_map() =~= self.spec_map());
        }
        r
    }
}

} // verus!
