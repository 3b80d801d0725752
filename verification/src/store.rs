//! A key-value store in memory: what a host keeps for the handlers, small
//! enough to hold in two vectors.

use vstd::prelude::*;

verus! {

/// Byte strings under text keys, each key at most once.
pub struct Store {
    keys: Vec<String>,
    values: Vec<Vec<u8>>,
}

impl View for Store {
    type V = Map<Seq<char>, Seq<u8>>;

    closed spec fn view(&self) -> Map<Seq<char>, Seq<u8>> {
        Map::new(
            |key: Seq<char>| exists|i: int| self.holds_at(key, i),
            |key: Seq<char>| self.values[self.position(key)]@,
        )
    }
}

impl Store {
    /// No key occurs twice, and every key has its value.
    pub closed spec fn well_formed(self) -> bool {
        &&& self.keys.len() == self.values.len()
        &&& forall|i: int, j: int|
            0 <= i < j < self.keys.len() ==> (#[trigger] self.keys[i])@ != (
            #[trigger] self.keys[j])@
    }

    /// Whether `key` sits at position `i`.
    spec fn holds_at(self, key: Seq<char>, i: int) -> bool {
        0 <= i < self.keys.len() && self.keys[i]@ == key
    }

    /// The position of `key`, where it has one.
    spec fn position(self, key: Seq<char>) -> int {
        choose|i: int| self.holds_at(key, i)
    }

    /// A key that sits at `i` is in the map, with the value at `i`.
    proof fn lemma_present(self, key: Seq<char>, i: int)
        requires
            self.well_formed(),
            self.holds_at(key, i),
        ensures
            self@.contains_key(key),
            self@[key] == self.values[i]@,
    {
        let p = self.position(key);
        assert(self.holds_at(key, p));
        if p < i {
            assert(self.keys[p]@ != self.keys[i]@);
        } else if i < p {
            assert(self.keys[i]@ != self.keys[p]@);
        }
    }

    /// The map holds what sits in the store and nothing else.
    proof fn lemma_view(self)
        requires
            self.well_formed(),
        ensures
            forall|i: int|
                0 <= i < self.keys.len() ==> self@.contains_key((#[trigger] self.keys[i])@)
                    && self@[self.keys[i]@] == self.values[i]@,
            forall|key: Seq<char>| #[trigger]
                self@.contains_key(key) ==> self.holds_at(key, self.position(key)),
    {
        assert forall|i: int| 0 <= i < self.keys.len() implies self@.contains_key(
            (#[trigger] self.keys[i])@,
        ) && self@[self.keys[i]@] == self.values[i]@ by {
            self.lemma_present(self.keys[i]@, i);
        }
    }

    /// The store is the map `map` where `map` holds what sits in the store
    /// and nothing else.
    proof fn lemma_view_is(self, map: Map<Seq<char>, Seq<u8>>)
        requires
            self.well_formed(),
            forall|i: int|
                0 <= i < self.keys.len() ==> map.contains_key((#[trigger] self.keys[i])@)
                    && map[self.keys[i]@] == self.values[i]@,
            forall|key: Seq<char>| #[trigger]
                map.contains_key(key) ==> exists|i: int| self.holds_at(key, i),
        ensures
            self@ == map,
    {
        self.lemma_view();
        assert forall|key: Seq<char>| #[trigger] self@.contains_key(key) implies map.contains_key(
            key,
        ) && map[key] == self@[key] by {
            let p = self.position(key);
            self.lemma_present(key, p);
            assert(map.contains_key(self.keys[p]@));
        }
        assert(self@ =~= map);
    }

    /// An empty store.
    pub fn new() -> (store: Store)
        ensures
            store.well_formed(),
            store@ == Map::<Seq<char>, Seq<u8>>::empty(),
    {
        let store = Store { keys: Vec::new(), values: Vec::new() };
        assert(store@ =~= Map::<Seq<char>, Seq<u8>>::empty());
        store
    }

    /// Where `key` sits, if it is there.
    fn find(&self, key: &String) -> (found: Option<usize>)
        requires
            self.well_formed(),
        ensures
            match found {
                Some(i) => self.holds_at(key@, i as int),
                None => forall|i: int| !self.holds_at(key@, i),
            },
    {
        let mut i: usize = 0;
        while i < self.keys.len()
            invariant
                0 <= i <= self.keys.len(),
                forall|j: int| 0 <= j < i ==> !self.holds_at(key@, j),
            decreases self.keys.len() - i,
        {
            if self.keys[i] == *key {
                return Some(i);
            }
            i = i + 1;
        }
        None
    }

    /// The value under `key`, if there is one.
    pub fn get(&self, key: &String) -> (value: Option<Vec<u8>>)
        requires
            self.well_formed(),
        ensures
            match value {
                Some(bytes) => self@.contains_key(key@) && self@[key@] == bytes@,
                None => !self@.contains_key(key@),
            },
    {
        match self.find(key) {
            Some(i) => {
                let bytes: Vec<u8> = self.values[i].clone();
                proof {
                    assert(bytes@ =~= self.values[i as int]@);
                    self.lemma_present(key@, i as int);
                }
                Some(bytes)
            },
            None => None,
        }
    }

    /// Puts `value` under `key`, in place of what was there.
    pub fn put(&mut self, key: String, value: Vec<u8>)
        requires
            old(self).well_formed(),
        ensures
            final(self).well_formed(),
            final(self)@ == old(self)@.insert(key@, value@),
    {
        let ghost before = *self;
        let ghost wanted = before@.insert(key@, value@);
        proof {
            before.lemma_view();
        }
        match self.find(&key) {
            Some(i) => {
                self.values.set(i, value);
                proof {
                    assert forall|k: Seq<char>| #[trigger] wanted.contains_key(k) implies exists|
                        j: int,
                    |
                        self.holds_at(k, j) by {
                        let j = if k == key@ {
                            i as int
                        } else {
                            before.position(k)
                        };
                        assert(self.holds_at(k, j));
                    }
                    self.lemma_view_is(wanted);
                }
            },
            None => {
                self.keys.push(key);
                self.values.push(value);
                proof {
                    let last = before.keys.len() as int;
                    assert forall|a: int, b: int| 0 <= a < b < self.keys.len() implies (
                    #[trigger] self.keys[a])@ != (#[trigger] self.keys[b])@ by {
                        if b == last {
                            assert(!before.holds_at(key@, a));
                        }
                    }
                    assert forall|k: Seq<char>| #[trigger] wanted.contains_key(k) implies exists|
                        j: int,
                    |
                        self.holds_at(k, j) by {
                        let j = if k == key@ {
                            last
                        } else {
                            before.position(k)
                        };
                        assert(self.holds_at(k, j));
                    }
                    self.lemma_view_is(wanted);
                }
            },
        }
    }

    /// Takes `key` and its value out; a key that is not there is no fault.
    pub fn delete(&mut self, key: &String)
        requires
            old(self).well_formed(),
        ensures
            final(self).well_formed(),
            final(self)@ == old(self)@.remove(key@),
    {
        let ghost before = *self;
        let ghost wanted = before@.remove(key@);
        proof {
            before.lemma_view();
        }
        match self.find(key) {
            Some(i) => {
                self.keys.remove(i);
                self.values.remove(i);
                proof {
                    let gap = i as int;
                    let was = |a: int|
                        if a < gap {
                            a
                        } else {
                            a + 1
                        };
                    assert forall|a: int| 0 <= a < self.keys.len() implies (
                    #[trigger] self.keys[a]) == before.keys[was(a)] && self.values[a]
                        == before.values[was(a)] by {}
                    assert forall|a: int, b: int| 0 <= a < b < self.keys.len() implies (
                    #[trigger] self.keys[a])@ != (#[trigger] self.keys[b])@ by {
                        assert(before.keys[was(a)]@ != before.keys[was(b)]@);
                    }
                    assert forall|a: int| 0 <= a < self.keys.len() implies wanted.contains_key(
                        (#[trigger] self.keys[a])@,
                    ) && wanted[self.keys[a]@] == self.values[a]@ by {
                        if was(a) < gap {
                            assert(before.keys[was(a)]@ != before.keys[gap]@);
                        } else {
                            assert(before.keys[gap]@ != before.keys[was(a)]@);
                        }
                    }
                    assert forall|k: Seq<char>| #[trigger] wanted.contains_key(k) implies exists|
                        j: int,
                    |
                        self.holds_at(k, j) by {
                        let p = before.position(k);
                        let j = if p < gap {
                            p
                        } else {
                            p - 1
                        };
                        assert(self.holds_at(k, j));
                    }
                    self.lemma_view_is(wanted);
                }
            },
            None => {
                assert(wanted =~= before@);
            },
        }
    }
}

} // verus!
