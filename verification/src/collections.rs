//! Storage-like collections keyed by byte strings (addresses, token
//! identifiers, endpoint names), with mathematical views.
use vstd::prelude::*;

verus! {

/// The value stored for `k`, if any.
pub open spec fn stored<V>(m: Map<Seq<u8>, V>, k: Seq<u8>) -> Option<V> {
    if m.contains_key(k) {
        Some(m[k])
    } else {
        None
    }
}


/// A set of byte strings without duplicates, removed from by swapping the
/// last element into the freed slot (the behaviour of an unordered set
/// mapper).
pub struct ByteSet {
    items: Vec<Vec<u8>>,
}

impl ByteSet {
    /// No byte string occurs twice.
    #[verifier::type_invariant]
    spec fn unique(&self) -> bool {
        forall|i: int, j: int|
            0 <= i < j < self.items@.len() ==> #[trigger] self.items@[i]@ != #[trigger] self.items@[j]@
    }

    spec fn holds_at(&self, i: int, s: Seq<u8>) -> bool {
        0 <= i < self.items@.len() && self.items@[i]@ == s
    }
}

impl View for ByteSet {
    type V = Set<Seq<u8>>;

    closed spec fn view(&self) -> Set<Seq<u8>> {
        Set::new(|s: Seq<u8>| exists|i: int| #[trigger] self.holds_at(i, s))
    }
}

impl ByteSet {
    /// The empty set.
    pub fn new() -> (r: ByteSet)
        ensures
            r@ == Set::<Seq<u8>>::empty(),
    {
        let r = ByteSet { items: Vec::new() };
        assert(r@ =~= Set::<Seq<u8>>::empty());
        r
    }

    fn find(&self, x: &Vec<u8>) -> (r: Option<usize>)
        ensures
            match r {
                Some(i) => i < self.items@.len() && self.items@[i as int]@ == x@,
                None => !self@.contains(x@),
            },
    {
        let n = self.items.len();
        let mut i: usize = 0;
        while i < n
            invariant
                n == self.items@.len(),
                i <= n,
                forall|j: int| 0 <= j < i ==> self.items@[j]@ != x@,
            decreases n - i,
        {
            if self.items[i] == *x {
                assert(self.items@[i as int]@ =~= x@);
                return Some(i);
            }
            i = i + 1;
        }
        assert(!self@.contains(x@)) by {
            if self@.contains(x@) {
                let j = choose|j: int| #[trigger] self.holds_at(j, x@);
                assert(self.items@[j]@ != x@);
            }
        }
        None
    }

    /// Whether `x` is an element.
    pub fn contains(&self, x: &Vec<u8>) -> (r: bool)
        ensures
            r == self@.contains(x@),
    {
        match self.find(x) {
            Some(i) => {
                assert(self.holds_at(i as int, x@));
                true
            },
            None => false,
        }
    }

    /// Whether the set has no element.
    pub fn is_empty(&self) -> (r: bool)
        ensures
            r == (self@ == Set::<Seq<u8>>::empty()),
    {
        if self.items.len() == 0 {
            assert(self@ =~= Set::<Seq<u8>>::empty());
            true
        } else {
            assert(self.holds_at(0, self.items@[0]@));
            assert(self@.contains(self.items@[0]@));
            false
        }
    }

    /// Adds `x`; answers whether it was absent before.
    pub fn insert(&mut self, x: Vec<u8>) -> (r: bool)
        ensures
            r == !old(self)@.contains(x@),
            final(self)@ == old(self)@.insert(x@),
    {
        proof {
            use_type_invariant(&*self);
        }
        if self.contains(&x) {
            assert(self@ =~= self@.insert(x@));
            return false;
        }
        let ghost old_items = self.items@;
        let ghost xv = x@;
        let mut items: Vec<Vec<u8>> = Vec::new();
        std::mem::swap(&mut items, &mut self.items);
        items.push(x);
        proof {
            assert forall|i: int, j: int| 0 <= i < j < items@.len() implies
                #[trigger] items@[i]@ != #[trigger] items@[j]@ by {
                if j == old_items.len() {
                    assert(old(self).holds_at(i, items@[i]@));
                }
            }
        }
        self.items = items;
        proof {
            assert(self.holds_at(old_items.len() as int, xv));
            assert forall|s: Seq<u8>| #[trigger] self@.contains(s) == old(self)@.insert(xv).contains(s) by {
                if self@.contains(s) && s != xv {
                    let j = choose|j: int| #[trigger] self.holds_at(j, s);
                    assert(old(self).holds_at(j, s));
                }
                if old(self)@.contains(s) {
                    let j = choose|j: int| #[trigger] old(self).holds_at(j, s);
                    assert(self.holds_at(j, s));
                }
            }
            assert(self@ =~= old(self)@.insert(xv));
        }
        true
    }

    /// Removes `x`, moving the last element into its slot; answers whether it
    /// was present.
    pub fn swap_remove(&mut self, x: &Vec<u8>) -> (r: bool)
        ensures
            r == old(self)@.contains(x@),
            final(self)@ == old(self)@.remove(x@),
    {
        proof {
            use_type_invariant(&*self);
        }
        match self.find(x) {
            None => {
                assert(self@ =~= self@.remove(x@));
                false
            },
            Some(i) => {
                assert(self.holds_at(i as int, x@));
                let ghost old_items = self.items@;
                let mut items: Vec<Vec<u8>> = Vec::new();
                std::mem::swap(&mut items, &mut self.items);
                let _ = items.swap_remove(i);
                proof {
                    let n = old_items.len();
                    assert forall|a: int, b: int| 0 <= a < b < items@.len() implies
                        #[trigger] items@[a]@ != #[trigger] items@[b]@ by {
                        if a == i {
                            assert(old_items[n - 1]@ != old_items[b]@);
                        } else if b == i {
                            assert(old_items[a]@ != old_items[n - 1]@);
                        } else {
                            assert(old_items[a]@ != old_items[b]@);
                        }
                    }
                }
                self.items = items;
                proof {
                    let n = old_items.len();
                    assert(self.items@ == old_items.update(i as int, old_items[n - 1]).drop_last());
                    assert forall|s: Seq<u8>| #[trigger] self@.contains(s) == old(self)@.remove(x@).contains(s) by {
                        if self@.contains(s) {
                            let j = choose|j: int| #[trigger] self.holds_at(j, s);
                            if j == i {
                                assert(old(self).holds_at(n - 1, s));
                                assert(s != x@);
                            } else {
                                assert(old(self).holds_at(j, s));
                                assert(s != x@);
                            }
                        }
                        if old(self)@.contains(s) && s != x@ {
                            let j = choose|j: int| #[trigger] old(self).holds_at(j, s);
                            if j == n - 1 {
                                assert(self.holds_at(i as int, s));
                            } else {
                                assert(j != i);
                                assert(self.holds_at(j, s));
                            }
                        }
                    }
                    assert(self@ =~= old(self)@.remove(x@));
                }
                true
            },
        }
    }
}

/// A map from byte strings to values, one entry per key (the behaviour of a
/// storage mapper indexed by an address).
pub struct KeyedStore<V> {
    entries: Vec<(Vec<u8>, V)>,
}

impl<V> KeyedStore<V> {
    /// No key occurs twice.
    #[verifier::type_invariant]
    spec fn unique_keys(&self) -> bool {
        forall|i: int, j: int|
            0 <= i < j < self.entries@.len() ==> #[trigger] self.entries@[i].0@
                != #[trigger] self.entries@[j].0@
    }

    spec fn key_at(&self, i: int, k: Seq<u8>) -> bool {
        0 <= i < self.entries@.len() && self.entries@[i].0@ == k
    }
}

impl<V> View for KeyedStore<V> {
    type V = Map<Seq<u8>, V>;

    closed spec fn view(&self) -> Map<Seq<u8>, V> {
        Map::new(
            |k: Seq<u8>| exists|i: int| #[trigger] self.key_at(i, k),
            |k: Seq<u8>| self.entries@[choose|i: int| #[trigger] self.key_at(i, k)].1,
        )
    }
}

impl<V> KeyedStore<V> {
    proof fn lemma_entry(&self, i: int)
        requires
            self.unique_keys(),
            0 <= i < self.entries@.len(),
        ensures
            self@.contains_key(self.entries@[i].0@),
            self@[self.entries@[i].0@] == self.entries@[i].1,
    {
        let k = self.entries@[i].0@;
        assert(self.key_at(i, k));
        let j = choose|j: int| #[trigger] self.key_at(j, k);
        assert(j == i) by {
            if j < i {
                assert(self.entries@[j].0@ != self.entries@[i].0@);
            } else if i < j {
                assert(self.entries@[i].0@ != self.entries@[j].0@);
            }
        }
    }

    /// The empty map.
    pub fn new() -> (r: KeyedStore<V>)
        ensures
            r@ == Map::<Seq<u8>, V>::empty(),
    {
        let r = KeyedStore { entries: Vec::new() };
        assert(r@ =~= Map::<Seq<u8>, V>::empty());
        r
    }

    fn find(&self, key: &Vec<u8>) -> (r: Option<usize>)
        ensures
            match r {
                Some(i) => i < self.entries@.len() && self.entries@[i as int].0@ == key@,
                None => !self@.contains_key(key@),
            },
    {
        let n = self.entries.len();
        let mut i: usize = 0;
        while i < n
            invariant
                n == self.entries@.len(),
                i <= n,
                forall|j: int| 0 <= j < i ==> self.entries@[j].0@ != key@,
            decreases n - i,
        {
            if self.entries[i].0 == *key {
                assert(self.entries@[i as int].0@ =~= key@);
                return Some(i);
            }
            i = i + 1;
        }
        assert(!self@.contains_key(key@)) by {
            if self@.contains_key(key@) {
                let j = choose|j: int| #[trigger] self.key_at(j, key@);
                assert(self.entries@[j].0@ != key@);
            }
        }
        None
    }

    /// The value stored under `key`, if any.
    pub fn get(&self, key: &Vec<u8>) -> (r: Option<&V>)
        ensures
            match r {
                Some(v) => self@.contains_key(key@) && *v == self@[key@],
                None => !self@.contains_key(key@),
            },
    {
        proof {
            use_type_invariant(self);
        }
        match self.find(key) {
            Some(i) => {
                proof {
                    self.lemma_entry(i as int);
                }
                Some(&self.entries[i].1)
            },
            None => None,
        }
    }

    /// Stores `value` under `key`, replacing what was there.
    pub fn set(&mut self, key: Vec<u8>, value: V)
        ensures
            final(self)@ == old(self)@.insert(key@, value),
    {
        proof {
            use_type_invariant(&*self);
        }
        let ghost kv = key@;
        let ghost old_entries = self.entries@;
        match self.find(&key) {
            Some(i) => {
                let mut entries: Vec<(Vec<u8>, V)> = Vec::new();
                std::mem::swap(&mut entries, &mut self.entries);
                entries.set(i, (key, value));
                proof {
                    assert forall|a: int, b: int| 0 <= a < b < entries@.len() implies
                        #[trigger] entries@[a].0@ != #[trigger] entries@[b].0@ by {
                        assert(old_entries[a].0@ != old_entries[b].0@);
                    }
                }
                self.entries = entries;
                proof {
                    self.lemma_entry(i as int);
                    assert forall|k: Seq<u8>| #[trigger] self@.contains_key(k) == old(self)@.insert(kv, value).contains_key(k) by {
                        if self@.contains_key(k) {
                            let j = choose|j: int| #[trigger] self.key_at(j, k);
                            assert(old(self).key_at(j, k));
                        }
                        if old(self)@.contains_key(k) {
                            let j = choose|j: int| #[trigger] old(self).key_at(j, k);
                            assert(self.key_at(j, k));
                        }
                    }
                    assert forall|k: Seq<u8>| #[trigger] self@.contains_key(k) implies self@[k] == old(self)@.insert(kv, value)[k] by {
                        if k != kv {
                            let j = choose|j: int| #[trigger] self.key_at(j, k);
                            self.lemma_entry(j);
                            old(self).lemma_entry(j);
                        }
                    }
                    assert(self@ =~= old(self)@.insert(kv, value));
                }
            },
            None => {
                let mut entries: Vec<(Vec<u8>, V)> = Vec::new();
                std::mem::swap(&mut entries, &mut self.entries);
                entries.push((key, value));
                proof {
                    let n = old_entries.len() as int;
                    assert forall|a: int, b: int| 0 <= a < b < entries@.len() implies
                        #[trigger] entries@[a].0@ != #[trigger] entries@[b].0@ by {
                        if b == n {
                            assert(old(self).key_at(a, entries@[a].0@));
                        } else {
                            assert(old_entries[a].0@ != old_entries[b].0@);
                        }
                    }
                }
                self.entries = entries;
                proof {
                    let n = old_entries.len() as int;
                    self.lemma_entry(n);
                    assert forall|k: Seq<u8>| #[trigger] self@.contains_key(k) == old(self)@.insert(kv, value).contains_key(k) by {
                        if self@.contains_key(k) && k != kv {
                            let j = choose|j: int| #[trigger] self.key_at(j, k);
                            assert(old(self).key_at(j, k));
                        }
                        if old(self)@.contains_key(k) {
                            let j = choose|j: int| #[trigger] old(self).key_at(j, k);
                            assert(self.key_at(j, k));
                        }
                    }
                    assert forall|k: Seq<u8>| #[trigger] self@.contains_key(k) implies self@[k] == old(self)@.insert(kv, value)[k] by {
                        if k != kv {
                            let j = choose|j: int| #[trigger] self.key_at(j, k);
                            self.lemma_entry(j);
                            old(self).lemma_entry(j);
                        }
                    }
                    assert(self@ =~= old(self)@.insert(kv, value));
                }
            },
        }
    }

    /// Removes the entry for `key` and hands its value out, if there was one.
    pub fn take(&mut self, key: &Vec<u8>) -> (r: Option<V>)
        ensures
            match r {
                Some(v) => old(self)@.contains_key(key@) && v == old(self)@[key@],
                None => !old(self)@.contains_key(key@),
            },
            final(self)@ == old(self)@.remove(key@),
    {
        proof {
            use_type_invariant(&*self);
        }
        let ghost old_entries = self.entries@;
        match self.find(key) {
            None => {
                assert(self@ =~= self@.remove(key@));
                None
            },
            Some(i) => {
                proof {
                    self.lemma_entry(i as int);
                }
                let mut entries: Vec<(Vec<u8>, V)> = Vec::new();
                std::mem::swap(&mut entries, &mut self.entries);
                let (_k, v) = entries.swap_remove(i);
                proof {
                    let n = old_entries.len() as int;
                    assert forall|a: int, b: int| 0 <= a < b < entries@.len() implies
                        #[trigger] entries@[a].0@ != #[trigger] entries@[b].0@ by {
                        if a == i {
                            assert(old_entries[n - 1].0@ != old_entries[b].0@);
                        } else if b == i {
                            assert(old_entries[a].0@ != old_entries[n - 1].0@);
                        } else {
                            assert(old_entries[a].0@ != old_entries[b].0@);
                        }
                    }
                }
                self.entries = entries;
                proof {
                    let n = old_entries.len() as int;
                    assert(self.entries@ == old_entries.update(i as int, old_entries[n - 1]).drop_last());
                    assert forall|k: Seq<u8>| #[trigger] self@.contains_key(k) == old(self)@.remove(key@).contains_key(k) by {
                        if self@.contains_key(k) {
                            let j = choose|j: int| #[trigger] self.key_at(j, k);
                            if j == i {
                                assert(old(self).key_at(n - 1, k));
                                assert(old_entries[i as int].0@ != old_entries[n - 1].0@);
                            } else {
                                assert(old(self).key_at(j, k));
                                assert(old_entries[j].0@ != old_entries[i as int].0@);
                            }
                        }
                        if old(self)@.contains_key(k) && k != key@ {
                            let j = choose|j: int| #[trigger] old(self).key_at(j, k);
                            if j == n - 1 {
                                assert(self.key_at(i as int, k));
                            } else {
                                assert(self.key_at(j, k));
                            }
                        }
                    }
                    assert forall|k: Seq<u8>| #[trigger] self@.contains_key(k) implies self@[k] == old(self)@.remove(key@)[k] by {
                        let j = choose|j: int| #[trigger] self.key_at(j, k);
                        self.lemma_entry(j);
                        if j == i {
                            old(self).lemma_entry(n - 1);
                        } else {
                            old(self).lemma_entry(j);
                        }
                    }
                    assert(self@ =~= old(self)@.remove(key@));
                }
                Some(v)
            },
        }
    }
}

} // verus!
