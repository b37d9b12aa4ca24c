//! A map from strings to values, kept as two parallel vectors.

use vstd::prelude::*;

verus! {

/// A map keyed by strings.
///
/// No key occurs twice, and a key keeps the position at which it was first inserted.
#[derive(Debug)]
pub struct StrMap<V> {
    keys: Vec<String>,
    values: Vec<V>,
}

impl<V> StrMap<V> {
    /// The keys are as many as the values, and no key occurs twice.
    #[verifier::type_invariant]
    spec fn inv(self) -> bool {
        &&& self.keys@.len() == self.values@.len()
        &&& self.key_seq().no_duplicates()
    }

    /// The keys in the order in which they were first inserted.
    pub closed spec fn key_seq(self) -> Seq<Seq<char>> {
        Seq::new(self.keys@.len(), |i: int| self.keys@[i]@)
    }
}

impl<V: View> View for StrMap<V> {
    type V = Map<Seq<char>, <V as View>::V>;

    closed spec fn view(&self) -> Map<Seq<char>, <V as View>::V> {
        Map::new(
            |k: Seq<char>| self.key_seq().contains(k),
            |k: Seq<char>| self.values@[self.key_seq().index_of(k)]@,
        )
    }
}

impl<V: View> StrMap<V> {
    /// The entry at a position is what the map holds under the key there.
    proof fn lemma_entry(self, i: int)
        requires
            self.inv(),
            0 <= i < self.keys@.len(),
        ensures
            self.key_seq().contains(self.keys@[i]@),
            self.key_seq().index_of(self.keys@[i]@) == i,
            self@.contains_key(self.keys@[i]@),
            self@[self.keys@[i]@] == self.values@[i]@,
    {
        assert(self.key_seq()[i] == self.keys@[i]@);
        let j = self.key_seq().index_of(self.keys@[i]@);
        assert(self.key_seq()[j] == self.key_seq()[i]);
    }

    /// Writing one value changes the map under the key there, and nowhere else.
    proof fn lemma_write(self, i: int)
        requires
            self.inv(),
            0 <= i < self.keys@.len(),
        ensures
            forall|after: Self|
                #![trigger after.view()]
                after.keys == self.keys && after.values@ == self.values@.update(
                    i,
                    after.values@[i],
                ) ==> {
                    &&& after@ == self@.insert(self.keys@[i]@, after.values@[i]@)
                    &&& after.key_seq() == self.key_seq()
                },
    {
        assert forall|after: Self|
            #![trigger after.view()]
            after.keys == self.keys && after.values@ == self.values@.update(
                i,
                after.values@[i],
            ) implies {
            &&& after@ == self@.insert(self.keys@[i]@, after.values@[i]@)
            &&& after.key_seq() == self.key_seq()
        } by {
            assert(after.key_seq() =~= self.key_seq());
            self.lemma_entry(i);
            let k0 = self.keys@[i]@;
            assert forall|k: Seq<char>| after@.contains_key(k) implies #[trigger] after@[k]
                == self@.insert(k0, after.values@[i]@)[k] by {
                let j = self.key_seq().index_of(k);
                assert(self.key_seq()[j] == k);
                self.lemma_entry(j);
            }
            assert(after@ =~= self@.insert(k0, after.values@[i]@));
        }
    }

    /// Appending an entry under a new key adds that entry to the map.
    proof fn lemma_push(self, key: String, value: V, keys: Vec<String>, values: Vec<V>)
        requires
            self.inv(),
            !self@.contains_key(key@),
            keys@ == self.keys@.push(key),
            values@ == self.values@.push(value),
        ensures
            (StrMap { keys, values }).inv(),
            (StrMap { keys, values })@ == self@.insert(key@, value@),
            (StrMap { keys, values }).key_seq() == self.key_seq().push(key@),
    {
        let after = StrMap { keys, values };
        assert(after.key_seq() =~= self.key_seq().push(key@));
        assert forall|i: int, j: int|
            0 <= i < after.key_seq().len() && 0 <= j < after.key_seq().len() && i
                != j implies after.key_seq()[i] != after.key_seq()[j] by {
            if i < self.keys@.len() {
                self.lemma_entry(i);
            }
            if j < self.keys@.len() {
                self.lemma_entry(j);
            }
        }
        let n = self.keys@.len() as int;
        after.lemma_entry(n);
        assert forall|k: Seq<char>|
            after@.contains_key(k) == self@.insert(key@, value@).contains_key(k) by {
            if self.key_seq().contains(k) {
                let j = self.key_seq().index_of(k);
                assert(after.key_seq()[j] == k);
            }
            if after.key_seq().contains(k) && k != key@ {
                let j = after.key_seq().index_of(k);
                assert(self.key_seq()[j] == k);
            }
        }
        assert forall|k: Seq<char>| after@.contains_key(k) implies #[trigger] after@[k]
            == self@.insert(key@, value@)[k] by {
            if k != key@ {
                let j = after.key_seq().index_of(k);
                assert(self.key_seq()[j] == k);
                after.lemma_entry(j);
                self.lemma_entry(j);
            }
        }
        assert(after@ =~= self@.insert(key@, value@));
    }

    /// The empty map.
    pub fn new() -> (m: Self)
        ensures
            m@ == Map::<Seq<char>, <V as View>::V>::empty(),
            m.key_seq() == Seq::<Seq<char>>::empty(),
    {
        let m = StrMap { keys: Vec::new(), values: Vec::new() };
        assert(m.key_seq() =~= Seq::<Seq<char>>::empty());
        assert(m@ =~= Map::<Seq<char>, <V as View>::V>::empty());
        m
    }

    /// The position of a key.
    fn position(&self, key: &String) -> (pos: Option<usize>)
        ensures
            match pos {
                Some(i) => i < self.keys@.len() && self.keys@[i as int]@ == key@,
                None => !self@.contains_key(key@),
            },
    {
        let mut i: usize = 0;
        while i < self.keys.len()
            invariant
                i <= self.keys@.len(),
                forall|j: int| 0 <= j < i ==> self.keys@[j]@ != key@,
            decreases self.keys@.len() - i,
        {
            if self.keys[i] == *key {
                return Some(i);
            }
            i += 1;
        }
        None
    }

    /// The number of keys.
    pub fn len(&self) -> (n: usize)
        ensures
            n == self@.dom().len(),
            n == self.key_seq().len(),
            self@.dom().finite(),
    {
        proof {
            use_type_invariant(self);
            assert(self@.dom() =~= self.key_seq().to_set());
            self.key_seq().unique_seq_to_set();
        }
        self.keys.len()
    }

    /// The key at position `i`, in the order of first insertion, and its value.
    pub fn entry(&self, i: usize) -> (e: (&String, &V))
        requires
            i < self.key_seq().len(),
        ensures
            e.0@ == self.key_seq()[i as int],
            self@.contains_key(e.0@),
            e.1@ == self@[e.0@],
    {
        proof {
            use_type_invariant(self);
            self.lemma_entry(i as int);
        }
        (&self.keys[i], &self.values[i])
    }

    /// The value under `key`, if there is one.
    pub fn get(&self, key: &String) -> (value: Option<&V>)
        ensures
            match value {
                Some(v) => self@.contains_key(key@) && v@ == self@[key@],
                None => !self@.contains_key(key@),
            },
    {
        proof {
            use_type_invariant(self);
        }
        match self.position(key) {
            Some(i) => {
                proof {
                    self.lemma_entry(i as int);
                }
                Some(&self.values[i])
            },
            None => None,
        }
    }

    /// The value under `key`, if there is one, for change in place.
    pub fn get_mut(&mut self, key: &String) -> (value: Option<&mut V>)
        ensures
            match value {
                Some(v) => {
                    &&& old(self)@.contains_key(key@)
                    &&& v@ == old(self)@[key@]
                    &&& final(self)@ == old(self)@.insert(key@, final(v)@)
                    &&& final(self).key_seq() == old(self).key_seq()
                },
                None => !old(self)@.contains_key(key@) && *final(self) == *old(self),
            },
    {
        proof {
            use_type_invariant(&*self);
        }
        match self.position(key) {
            Some(i) => {
                proof {
                    self.lemma_entry(i as int);
                    self.lemma_write(i as int);
                }
                Some(&mut self.values[i])
            },
            None => None,
        }
    }

    /// Puts `value` under `key`, in place of what was there.
    pub fn insert(&mut self, key: String, value: V)
        ensures
            final(self)@ == old(self)@.insert(key@, value@),
            final(self).key_seq() == if old(self)@.contains_key(key@) {
                old(self).key_seq()
            } else {
                old(self).key_seq().push(key@)
            },
    {
        proof {
            use_type_invariant(&*self);
        }
        match self.position(&key) {
            Some(i) => {
                proof {
                    self.lemma_entry(i as int);
                    self.lemma_write(i as int);
                }
                self.values[i] = value;
            },
            None => {
                let ghost before = *self;
                let mut taken: StrMap<V> = StrMap::new();
                std::mem::swap(self, &mut taken);
                let StrMap { keys: mut keys, values: mut values } = taken;
                keys.push(key);
                values.push(value);
                proof {
                    before.lemma_push(key, value, keys, values);
                }
                *self = StrMap { keys, values };
            },
        }
    }

    /// The value under `key`, for change in place; where there is none, `value` is put there
    /// first and `inserted` is set.
    pub fn get_or_insert(&mut self, key: &String, value: V, inserted: &mut bool) -> (slot: &mut V)
        ensures
            slot@ == if old(self)@.contains_key(key@) {
                old(self)@[key@]
            } else {
                value@
            },
            final(self)@ == old(self)@.insert(key@, final(slot)@),
            final(self).key_seq() == if old(self)@.contains_key(key@) {
                old(self).key_seq()
            } else {
                old(self).key_seq().push(key@)
            },
            *final(inserted) == (*old(inserted) || !old(self)@.contains_key(key@)),
    {
        let i: usize = match self.position(key) {
            Some(i) => i,
            None => {
                let n: usize = self.len();
                *inserted = true;
                self.insert(key.clone(), value);
                proof {
                    use_type_invariant(&*self);
                    assert(self.key_seq() == old(self).key_seq().push(key@));
                    assert(self.key_seq().len() == self.keys@.len());
                    assert(self.key_seq()[n as int] == key@);
                }
                n
            },
        };
        proof {
            use_type_invariant(&*self);
            self.lemma_entry(i as int);
            self.lemma_write(i as int);
        }
        &mut self.values[i]
    }
}

impl<V: View + Clone> Clone for StrMap<V> {
    /// The same keys in the same order, with a clone of each value.
    fn clone(&self) -> (copy: Self)
        ensures
            copy.key_seq() == self.key_seq(),
            copy@.dom() == self@.dom(),
            (forall|a: V, b: V| #[trigger] cloned(a, b) ==> b@ == a@) ==> copy@ == self@,
    {
        proof {
            use_type_invariant(self);
        }
        let keys: Vec<String> = self.keys.clone();
        let values: Vec<V> = self.values.clone();
        proof {
            assert forall|i: int| 0 <= i < keys@.len() implies #[trigger] keys@[i]@
                == self.keys@[i]@ by {
                assert(cloned(self.keys@[i], keys@[i]));
            }
            assert((StrMap { keys, values }).key_seq() =~= self.key_seq());
        }
        let copy = StrMap { keys, values };
        proof {
            assert(copy@.dom() =~= self@.dom());
            if forall|a: V, b: V| #[trigger] cloned(a, b) ==> b@ == a@ {
                assert forall|k: Seq<char>| copy@.contains_key(k) implies #[trigger] copy@[k]
                    == self@[k] by {
                    let i = self.key_seq().index_of(k);
                    assert(self.key_seq()[i] == k);
                    assert(cloned(self.values@[i], copy.values@[i]));
                }
                assert(copy@ =~= self@);
            }
        }
        copy
    }
}

} // verus!
