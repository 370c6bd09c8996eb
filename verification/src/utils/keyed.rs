//! An insertion-ordered map backed by a vector.
//!
//! Keys are compared through their views, so two keys denote the same entry
//! exactly when they view to the same value. No key occurs twice, and an
//! entry keeps its position for as long as it stays in the map.

use vstd::prelude::*;

verus! {

/// A key type whose equality is decided on its view.
pub trait StoreKey: View + Sized {
    /// Whether both keys view to the same value.
    fn same_key(&self, other: &Self) -> (same: bool)
        ensures
            same == (self@ == other@),
    ;

    /// A fresh key with the same view.
    fn copy_key(&self) -> (copy: Self)
        ensures
            copy@ == self@,
    ;
}

impl StoreKey for String {
    fn same_key(&self, other: &Self) -> (same: bool) {
        *self == *other
    }

    fn copy_key(&self) -> (copy: Self) {
        self.clone()
    }
}

/// Insertion-ordered map from `K` to `V` without duplicate keys.
pub struct VecMap<K: StoreKey, V> {
    keys: Vec<K>,
    values: Vec<V>,
}

impl<K: StoreKey, V> VecMap<K, V> {
    /// Views of the keys, in insertion order.
    pub closed spec fn keys(&self) -> Seq<K::V> {
        Seq::new(self.keys@.len(), |i: int| self.keys@[i]@)
    }

    /// The values, in the order of their keys.
    pub closed spec fn values(&self) -> Seq<V> {
        self.values@
    }

    /// One value per key and no key twice.
    pub closed spec fn wf(&self) -> bool {
        &&& self.keys@.len() == self.values@.len()
        &&& self.keys().no_duplicates()
    }

    /// Position of `key` among the keys, if it is present.
    pub open spec fn position(&self, key: K::V) -> Option<int> {
        if self.keys().contains(key) {
            Some(self.keys().index_of(key))
        } else {
            None
        }
    }

    /// Whether `key` has an entry.
    pub open spec fn contains_key(&self, key: K::V) -> bool {
        self.keys().contains(key)
    }

    /// The value stored under `key`; meaningful when the key is present.
    pub open spec fn value_of(&self, key: K::V) -> V {
        self.values()[self.keys().index_of(key)]
    }

    /// The map from present keys to their values.
    pub open spec fn view(&self) -> Map<K::V, V> {
        Map::new(|k: K::V| self.contains_key(k), |k: K::V| self.value_of(k))
    }

    /// A well-formed map has as many values as keys, and distinct keys.
    pub proof fn lemma_wf(&self)
        requires
            self.wf(),
        ensures
            self.keys().len() == self.values().len(),
            self.keys().no_duplicates(),
            forall|i: int|
                0 <= i < self.keys().len() ==> #[trigger] self.position(self.keys()[i]) == Some(i),
    {
        assert forall|i: int| 0 <= i < self.keys().len() implies #[trigger] self.position(
            self.keys()[i],
        ) == Some(i) by {
            let k = self.keys()[i];
            assert(self.keys().contains(k));
            let j = self.keys().index_of(k);
            assert(self.keys()[j] == k);
        }
    }

    /// The empty map.
    pub fn new() -> (map: Self)
        ensures
            map.wf(),
            map.keys() == Seq::<K::V>::empty(),
            map.values() == Seq::<V>::empty(),
    {
        let map = VecMap { keys: Vec::new(), values: Vec::new() };
        assert(map.keys() =~= Seq::<K::V>::empty());
        map
    }

    /// Number of entries.
    pub fn len(&self) -> (n: usize)
        requires
            self.wf(),
        ensures
            n == self.keys().len(),
            n == self.values().len(),
    {
        self.keys.len()
    }

    /// Position of the entry for `key`.
    pub fn find(&self, key: &K) -> (found: Option<usize>)
        requires
            self.wf(),
        ensures
            self.keys().len() == self.values().len(),
            match found {
                Some(i) => self.position(key@) == Some(i as int) && i < self.keys().len(),
                None => self.position(key@).is_none(),
            },
    {
        proof {
            self.lemma_wf();
        }
        let mut i: usize = 0;
        while i < self.keys.len()
            invariant
                0 <= i <= self.keys@.len(),
                self.keys().len() == self.keys@.len(),
                self.keys().len() == self.values().len(),
                forall|j: int| 0 <= j < i ==> self.keys()[j] != key@,
                forall|j: int|
                    0 <= j < self.keys().len() ==> #[trigger] self.position(self.keys()[j])
                        == Some(j),
            decreases self.keys@.len() - i,
        {
            if self.keys[i].same_key(key) {
                assert(self.keys()[i as int] == key@);
                return Some(i);
            }
            i += 1;
        }
        None
    }

    /// The value stored under `key`.
    pub fn get(&self, key: &K) -> (found: Option<&V>)
        requires
            self.wf(),
        ensures
            match found {
                Some(v) => self.contains_key(key@) && *v == self.value_of(key@),
                None => !self.contains_key(key@),
            },
    {
        match self.find(key) {
            Some(i) => Some(&self.values[i]),
            None => None,
        }
    }

    /// The key at a position.
    pub fn key_at(&self, i: usize) -> (key: &K)
        requires
            self.wf(),
            i < self.keys().len(),
        ensures
            key@ == self.keys()[i as int],
    {
        &self.keys[i]
    }

    /// The value at a position.
    pub fn value_at(&self, i: usize) -> (value: &V)
        requires
            self.wf(),
            i < self.values().len(),
        ensures
            *value == self.values()[i as int],
    {
        &self.values[i]
    }

    /// Replaces the value at a position, leaving the keys as they are.
    pub fn set_value_at(&mut self, i: usize, value: V)
        requires
            old(self).wf(),
            i < old(self).values().len(),
        ensures
            final(self).wf(),
            final(self).keys() == old(self).keys(),
            final(self).values() == old(self).values().update(i as int, value),
            final(self)@ == old(self)@.insert(old(self).keys()[i as int], value),
    {
        proof {
            self.lemma_wf();
        }
        let ghost before = *self;
        self.values[i] = value;
        proof {
            assert(self.keys() == before.keys());
            self.lemma_wf();
            let key = before.keys()[i as int];
            assert(self@ =~= before@.insert(key, value)) by {
                assert forall|k: K::V| #[trigger] self@.dom().contains(k) implies self@[k]
                    == before@.insert(key, value)[k] by {
                    let j = self.keys().index_of(k);
                    assert(self.keys()[j] == k);
                }
            }
        }
    }

    /// Removes the entry for `key`, if there is one, and hands back its
    /// value. The entries behind it move up by one position.
    pub fn remove(&mut self, key: &K) -> (removed: Option<V>)
        requires
            old(self).wf(),
        ensures
            final(self).wf(),
            final(self)@ == old(self)@.remove(key@),
            match old(self).position(key@) {
                Some(i) => {
                    &&& removed == Some(old(self).values()[i])
                    &&& final(self).keys() == old(self).keys().remove(i)
                    &&& final(self).values() == old(self).values().remove(i)
                },
                None => {
                    &&& removed.is_none()
                    &&& final(self).keys() == old(self).keys()
                    &&& final(self).values() == old(self).values()
                },
            },
    {
        proof {
            self.lemma_wf();
        }
        let ghost before = *self;
        match self.find(key) {
            Some(i) => {
                let _ = self.keys.remove(i);
                let value = self.values.remove(i);
                proof {
                    assert(self.keys() =~= before.keys().remove(i as int));
                    assert(self.keys().no_duplicates()) by {
                        assert forall|a: int, b: int|
                            0 <= a < self.keys().len() && 0 <= b < self.keys().len() && a
                                != b implies self.keys()[a] != self.keys()[b] by {
                            let a0 = if a < i { a } else { a + 1 };
                            let b0 = if b < i { b } else { b + 1 };
                            assert(self.keys()[a] == before.keys()[a0]);
                            assert(self.keys()[b] == before.keys()[b0]);
                        }
                    }
                    self.lemma_wf();
                    assert(self@ =~= before@.remove(key@)) by {
                        assert forall|k: K::V| self@.dom().contains(k) implies before@.remove(
                            key@,
                        ).dom().contains(k) by {
                            let j = self.keys().index_of(k);
                            assert(self.keys()[j] == k);
                            let j0 = if j < i { j } else { j + 1 };
                            assert(before.keys()[j0] == k);
                        }
                        assert forall|k: K::V|
                            before@.remove(key@).dom().contains(k) implies self@.dom().contains(
                            k,
                        ) by {
                            let j0 = before.keys().index_of(k);
                            assert(before.keys()[j0] == k);
                            let j = if j0 < i { j0 } else { j0 - 1 };
                            assert(self.keys()[j] == k);
                        }
                        assert forall|k: K::V| #[trigger] self@.dom().contains(k) implies self@[k]
                            == before@.remove(key@)[k] by {
                            let j = self.keys().index_of(k);
                            assert(self.keys()[j] == k);
                            let j0 = if j < i { j } else { j + 1 };
                            assert(before.keys()[j0] == k);
                            let j1 = before.keys().index_of(k);
                            assert(before.keys()[j1] == k);
                        }
                    }
                }
                Some(value)
            },
            None => {
                proof {
                    assert(self@ =~= before@.remove(key@));
                }
                None
            },
        }
    }

    /// Stores `value` under `key`: in place where the key is present, at the
    /// end otherwise.
    pub fn insert(&mut self, key: K, value: V)
        requires
            old(self).wf(),
        ensures
            final(self).wf(),
            final(self)@ == old(self)@.insert(key@, value),
            match old(self).position(key@) {
                Some(i) => {
                    &&& final(self).keys() == old(self).keys()
                    &&& final(self).values() == old(self).values().update(i, value)
                },
                None => {
                    &&& final(self).keys() == old(self).keys().push(key@)
                    &&& final(self).values() == old(self).values().push(value)
                },
            },
    {
        proof {
            self.lemma_wf();
        }
        let ghost before = *self;
        match self.find(&key) {
            Some(i) => {
                self.values[i] = value;
                proof {
                    assert(self.keys() == before.keys());
                    self.lemma_wf();
                    assert(self@ =~= before@.insert(key@, value)) by {
                        assert forall|k: K::V| #[trigger] self@.dom().contains(k) implies self@[k]
                            == before@.insert(key@, value)[k] by {
                            let j = self.keys().index_of(k);
                            assert(self.keys()[j] == k);
                        }
                    }
                }
            },
            None => {
                self.keys.push(key);
                self.values.push(value);
                proof {
                    assert(self.keys() =~= before.keys().push(key@));
                    assert(self.keys().no_duplicates());
                    self.lemma_wf();
                    assert(self@ =~= before@.insert(key@, value)) by {
                        assert(self.keys()[before.keys().len() as int] == key@);
                        assert forall|k: K::V| self@.dom().contains(k) implies before@.insert(
                            key@,
                            value,
                        ).dom().contains(k) by {
                            let j = self.keys().index_of(k);
                            assert(self.keys()[j] == k);
                            if j < before.keys().len() {
                                assert(before.keys()[j] == k);
                            }
                        }
                        assert forall|k: K::V|
                            before@.insert(key@, value).dom().contains(k) implies self@.dom().contains(
                            k,
                        ) by {
                            if k != key@ {
                                let j = before.keys().index_of(k);
                                assert(before.keys()[j] == k);
                                assert(self.keys()[j] == k);
                            }
                        }
                        assert forall|k: K::V| #[trigger] self@.dom().contains(k) implies self@[k]
                            == before@.insert(key@, value)[k] by {
                            let j = self.keys().index_of(k);
                            assert(self.keys()[j] == k);
                            if k != key@ {
                                assert(j < before.keys().len());
                                assert(before.keys()[j] == k);
                                let j2 = before.keys().index_of(k);
                                assert(before.keys()[j2] == k);
                                assert(self.keys()[j2] == k);
                            } else {
                                assert(self.keys()[before.keys().len() as int] == key@);
                            }
                        }
                    }
                }
            },
        }
    }

    /// Removes every entry.
    pub fn clear(&mut self)
        ensures
            final(self).wf(),
            final(self).keys() == Seq::<K::V>::empty(),
            final(self).values() == Seq::<V>::empty(),
    {
        self.keys.clear();
        self.values.clear();
        assert(self.keys() =~= Seq::<K::V>::empty());
    }
}

} // verus!
