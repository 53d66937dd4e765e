use vstd::prelude::*;

verus! {

/// A key of a [`Table`]: its abstract value is a sequence of identity strings,
/// and two keys are the same exactly when those sequences are equal.
pub trait TableKey: Sized {
    spec fn key(&self) -> Seq<Seq<char>>;

    fn same_key(&self, other: &Self) -> (r: bool)
        ensures
            r == (self.key() == other.key()),
    ;
}

impl TableKey for String {
    open spec fn key(&self) -> Seq<Seq<char>> {
        seq![self@]
    }

    fn same_key(&self, other: &Self) -> (r: bool) {
        let r = *self == *other;
        proof {
            if self.key() == other.key() {
                assert(self.key()[0] == self@);
                assert(other.key()[0] == other@);
            }
            if r {
                assert(self.key() =~= other.key());
            }
        }
        r
    }
}

/// The key of a record that belongs to one issuer and one prover.
pub struct IdPair {
    pub issuer: String,
    pub prover: String,
}

impl TableKey for IdPair {
    open spec fn key(&self) -> Seq<Seq<char>> {
        seq![self.issuer@, self.prover@]
    }

    fn same_key(&self, other: &Self) -> (r: bool) {
        let r = self.issuer == other.issuer && self.prover == other.prover;
        proof {
            if self.key() == other.key() {
                assert(self.key()[0] == self.issuer@ && self.key()[1] == self.prover@);
                assert(other.key()[0] == other.issuer@ && other.key()[1] == other.prover@);
            }
            if r {
                assert(self.key() =~= other.key());
            }
        }
        r
    }
}

/// An upsert-only key-value table, held as a list of entries with distinct keys.
pub struct Table<K, V> {
    entries: Vec<(K, V)>,
}

impl<K: TableKey, V> Table<K, V> {
    /// No two entries share a key.
    pub closed spec fn wf(&self) -> bool {
        forall|i: int, j: int|
            0 <= i < self.entries@.len() && 0 <= j < self.entries@.len() && i != j
                ==> #[trigger] self.entries@[i].0.key() != #[trigger] self.entries@[j].0.key()
    }

    closed spec fn has_entry(&self, k: Seq<Seq<char>>) -> bool {
        exists|i: int| 0 <= i < self.entries@.len() && #[trigger] self.entries@[i].0.key() == k
    }

    closed spec fn value_at(&self, k: Seq<Seq<char>>) -> V {
        self.entries@[choose|i: int|
            0 <= i < self.entries@.len() && #[trigger] self.entries@[i].0.key() == k].1
    }

    /// The table as a map from keys to values.
    pub closed spec fn view(&self) -> Map<Seq<Seq<char>>, V> {
        Map::new(|k: Seq<Seq<char>>| self.has_entry(k), |k: Seq<Seq<char>>| self.value_at(k))
    }

    pub fn new() -> (r: Self)
        ensures
            r.wf(),
            r@ == Map::<Seq<Seq<char>>, V>::empty(),
    {
        let r = Table { entries: Vec::new() };
        assert(r@ =~= Map::<Seq<Seq<char>>, V>::empty());
        r
    }

    fn find(&self, k: &K) -> (r: Option<usize>)
        ensures
            match r {
                Some(i) => i < self.entries@.len() && self.entries@[i as int].0.key() == k.key(),
                None => forall|i: int|
                    0 <= i < self.entries@.len() ==> #[trigger] self.entries@[i].0.key() != k.key(),
            },
    {
        let mut i: usize = 0;
        while i < self.entries.len()
            invariant
                i <= self.entries@.len(),
                forall|j: int| 0 <= j < i ==> #[trigger] self.entries@[j].0.key() != k.key(),
            decreases self.entries@.len() - i,
        {
            if self.entries[i].0.same_key(k) {
                return Some(i);
            }
            i = i + 1;
        }
        None
    }

    proof fn lemma_value_at_index(&self, i: int)
        requires
            self.wf(),
            0 <= i < self.entries@.len(),
        ensures
            self@.contains_key(self.entries@[i].0.key()),
            self@[self.entries@[i].0.key()] == self.entries@[i].1,
    {
        let k = self.entries@[i].0.key();
        assert(self.has_entry(k));
        let j = choose|j: int| 0 <= j < self.entries@.len() && #[trigger] self.entries@[j].0.key() == k;
        assert(j == i);
    }

    /// The value stored under `k`, if any.
    pub fn get(&self, k: &K) -> (r: Option<&V>)
        requires
            self.wf(),
        ensures
            match r {
                Some(v) => self@.contains_key(k.key()) && *v == self@[k.key()],
                None => !self@.contains_key(k.key()),
            },
    {
        match self.find(k) {
            Some(i) => {
                proof {
                    self.lemma_value_at_index(i as int);
                }
                Some(&self.entries[i].1)
            },
            None => None,
        }
    }

    /// Stores `v` under `k`, replacing any value held there before.
    pub fn insert(&mut self, k: K, v: V)
        requires
            old(self).wf(),
        ensures
            final(self).wf(),
            final(self)@ == old(self)@.insert(k.key(), v),
    {
        let ghost old_t = *self;
        let ghost kk = k.key();
        match self.find(&k) {
            Some(i) => {
                self.entries[i] = (k, v);
                proof {
                    assert(self.entries@ == old_t.entries@.update(i as int, self.entries@[i as int]));
                    assert forall|a: int, b: int|
                        0 <= a < self.entries@.len() && 0 <= b < self.entries@.len() && a != b
                        implies #[trigger] self.entries@[a].0.key() != #[trigger] self.entries@[b].0.key() by {
                        if a != i && b != i {
                            assert(old_t.entries@[a] == self.entries@[a]);
                            assert(old_t.entries@[b] == self.entries@[b]);
                        } else if a == i {
                            assert(old_t.entries@[b] == self.entries@[b]);
                            assert(old_t.entries@[i as int].0.key() != old_t.entries@[b].0.key());
                        } else {
                            assert(old_t.entries@[a] == self.entries@[a]);
                            assert(old_t.entries@[i as int].0.key() != old_t.entries@[a].0.key());
                        }
                    }
                    self.lemma_same_keys_view(&old_t, i as int);
                }
            },
            None => {
                self.entries.push((k, v));
                proof {
                    let n = old_t.entries@.len() as int;
                    assert forall|a: int, b: int|
                        0 <= a < self.entries@.len() && 0 <= b < self.entries@.len() && a != b
                        implies #[trigger] self.entries@[a].0.key() != #[trigger] self.entries@[b].0.key() by {
                        if a < n && b < n {
                            assert(old_t.entries@[a] == self.entries@[a]);
                            assert(old_t.entries@[b] == self.entries@[b]);
                        } else if a == n {
                            assert(old_t.entries@[b] == self.entries@[b]);
                        } else {
                            assert(old_t.entries@[a] == self.entries@[a]);
                        }
                    }
                    self.lemma_pushed_view(&old_t);
                }
            },
        }
    }

    proof fn lemma_same_keys_view(&self, old_t: &Self, i: int)
        requires
            self.wf(),
            old_t.wf(),
            0 <= i < old_t.entries@.len(),
            self.entries@ == old_t.entries@.update(i, self.entries@[i]),
            self.entries@[i].0.key() == old_t.entries@[i].0.key(),
        ensures
            self@ == old_t@.insert(self.entries@[i].0.key(), self.entries@[i].1),
    {
        let kk = self.entries@[i].0.key();
        self.lemma_value_at_index(i);
        assert forall|k: Seq<Seq<char>>| #[trigger] self@.contains_key(k) == old_t@.insert(kk, self.entries@[i].1).contains_key(k) by {
            if self.has_entry(k) {
                let j = choose|j: int| 0 <= j < self.entries@.len() && #[trigger] self.entries@[j].0.key() == k;
                if j != i {
                    assert(old_t.entries@[j] == self.entries@[j]);
                }
            }
            if old_t.has_entry(k) {
                let j = choose|j: int| 0 <= j < old_t.entries@.len() && #[trigger] old_t.entries@[j].0.key() == k;
                if j != i {
                    assert(old_t.entries@[j] == self.entries@[j]);
                }
            }
        }
        assert forall|k: Seq<Seq<char>>| #[trigger] self@.contains_key(k) && k != kk implies self@[k] == old_t@[k] by {
            let j = choose|j: int| 0 <= j < self.entries@.len() && #[trigger] self.entries@[j].0.key() == k;
            assert(j != i);
            assert(old_t.entries@[j] == self.entries@[j]);
            self.lemma_value_at_index(j);
            old_t.lemma_value_at_index(j);
        }
        assert(self@ =~= old_t@.insert(kk, self.entries@[i].1));
    }

    proof fn lemma_pushed_view(&self, old_t: &Self)
        requires
            self.wf(),
            old_t.wf(),
            self.entries@.len() == old_t.entries@.len() + 1,
            forall|j: int| 0 <= j < old_t.entries@.len() ==> old_t.entries@[j] == #[trigger] self.entries@[j],
            forall|j: int| 0 <= j < old_t.entries@.len() ==> #[trigger] old_t.entries@[j].0.key() != self.entries@.last().0.key(),
        ensures
            self@ == old_t@.insert(self.entries@.last().0.key(), self.entries@.last().1),
    {
        let n = old_t.entries@.len() as int;
        let kk = self.entries@[n].0.key();
        self.lemma_value_at_index(n);
        assert forall|k: Seq<Seq<char>>| #[trigger] self@.contains_key(k) == old_t@.insert(kk, self.entries@[n].1).contains_key(k) by {
            if self.has_entry(k) {
                let j = choose|j: int| 0 <= j < self.entries@.len() && #[trigger] self.entries@[j].0.key() == k;
                if j != n {
                    assert(old_t.entries@[j] == self.entries@[j]);
                }
            }
            if old_t.has_entry(k) {
                let j = choose|j: int| 0 <= j < old_t.entries@.len() && #[trigger] old_t.entries@[j].0.key() == k;
                assert(old_t.entries@[j] == self.entries@[j]);
            }
        }
        assert forall|k: Seq<Seq<char>>| #[trigger] self@.contains_key(k) && k != kk implies self@[k] == old_t@[k] by {
            let j = choose|j: int| 0 <= j < self.entries@.len() && #[trigger] self.entries@[j].0.key() == k;
            assert(j != n);
            assert(old_t.entries@[j] == self.entries@[j]);
            self.lemma_value_at_index(j);
            old_t.lemma_value_at_index(j);
        }
        assert(self@ =~= old_t@.insert(kk, self.entries@[n].1));
    }
}

} // verus!
