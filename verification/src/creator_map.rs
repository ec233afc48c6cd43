//! A table keyed by creator id, found by comparing the bytes of the ids.

use crate::bounded::{bytes_63, same_bytes_63};
use crate::types::CreatorId;
use vstd::prelude::*;

verus! {

/// A table from creator ids to values.  Two ids are the same key when they
/// hold the same bytes.
pub struct CreatorMap<V> {
    keys: Vec<CreatorId>,
    values: Vec<V>,
}

impl<V> CreatorMap<V> {
    /// The key at `at` holds the bytes `key`.
    spec fn key_at(&self, key: Seq<u8>, at: int) -> bool {
        0 <= at < self.keys.len() && bytes_63(self.keys[at]) == key
    }

    /// Keys and values stand side by side, and no key occurs twice.
    pub closed spec fn wf(&self) -> bool {
        &&& self.keys.len() == self.values.len()
        &&& forall|i: int, j: int|
            0 <= i < self.keys.len() && 0 <= j < self.keys.len() && i != j ==> bytes_63(
                self.keys[i],
            ) != bytes_63(self.keys[j])
    }

    /// The table as a map from the bytes of a key to its value.
    pub closed spec fn view(&self) -> Map<Seq<u8>, V> {
        Map::new(
            |key: Seq<u8>| exists|at: int| self.key_at(key, at),
            |key: Seq<u8>| self.values[choose|at: int| self.key_at(key, at)],
        )
    }

    proof fn lemma_value_at(&self, at: int)
        requires
            self.wf(),
            0 <= at < self.keys.len(),
        ensures
            self@.contains_key(bytes_63(self.keys[at])),
            self@[bytes_63(self.keys[at])] == self.values[at],
    {
        let key = bytes_63(self.keys[at]);
        assert(self.key_at(key, at));
        let chosen = choose|c: int| self.key_at(key, c);
        assert(self.key_at(key, chosen));
    }

    /// An empty table.
    pub fn new() -> (table: Self)
        ensures
            table.wf(),
            table@ == Map::<Seq<u8>, V>::empty(),
    {
        let table = CreatorMap { keys: Vec::new(), values: Vec::new() };
        assert(table@ =~= Map::<Seq<u8>, V>::empty());
        table
    }

    /// The place of `key`, if the table holds it.
    fn position(&self, key: &CreatorId) -> (found: Option<usize>)
        requires
            self.wf(),
        ensures
            match found {
                Some(at) => self.key_at(bytes_63(*key), at as int),
                None => !self@.contains_key(bytes_63(*key)),
            },
    {
        let mut at: usize = 0;
        while at < self.keys.len()
            invariant
                at <= self.keys.len(),
                forall|before: int| 0 <= before < at ==> bytes_63(self.keys[before]) != bytes_63(*key),
            decreases self.keys.len() - at,
        {
            if same_bytes_63(&self.keys[at], key) {
                return Some(at);
            }
            at += 1;
        }
        None
    }

    /// The value filed under `key`.
    pub fn get(&self, key: &CreatorId) -> (found: Option<&V>)
        requires
            self.wf(),
        ensures
            match found {
                Some(value) => self@.contains_key(bytes_63(*key)) && self@[bytes_63(*key)] == *value,
                None => !self@.contains_key(bytes_63(*key)),
            },
    {
        match self.position(key) {
            Some(at) => {
                proof {
                    self.lemma_value_at(at as int);
                }
                Some(&self.values[at])
            },
            None => None,
        }
    }

    /// Files `value` under `key`, in place of what was there.
    pub fn insert(&mut self, key: CreatorId, value: V)
        requires
            old(self).wf(),
        ensures
            final(self).wf(),
            final(self)@ == old(self)@.insert(bytes_63(key), value),
    {
        let ghost before = *self;
        match self.position(&key) {
            Some(at) => {
                self.values.set(at, value);
                proof {
                    assert forall|k: Seq<u8>, i: int| self.key_at(k, i) <==> before.key_at(k, i) by {}
                    assert(before.key_at(bytes_63(key), at as int));
                    assert forall|k: Seq<u8>| #[trigger]
                        self@.contains_key(k) <==> before@.insert(bytes_63(key), value).contains_key(
                            k,
                        ) by {
                        if self@.contains_key(k) {
                            let i = choose|i: int| self.key_at(k, i);
                            assert(before.key_at(k, i));
                        }
                        if before@.contains_key(k) {
                            let i = choose|i: int| before.key_at(k, i);
                            assert(self.key_at(k, i));
                        }
                    }
                    assert forall|k: Seq<u8>| #[trigger]
                        self@.contains_key(k) implies self@[k] == before@.insert(
                        bytes_63(key),
                        value,
                    )[k] by {
                        let i = choose|i: int| self.key_at(k, i);
                        assert(before.key_at(k, i));
                        before.lemma_value_at(i);
                        self.lemma_value_at(i);
                    }
                    assert(before.key_at(bytes_63(key), at as int));
                    assert(self@ =~= before@.insert(bytes_63(key), value));
                }
            },
            None => {
                self.keys.push(key);
                self.values.push(value);
                proof {
                    let last = before.keys.len() as int;
                    assert forall|i: int| 0 <= i < last implies bytes_63(self.keys[i]) != bytes_63(
                        key,
                    ) by {
                        assert(before.key_at(bytes_63(before.keys[i]), i));
                    }
                    assert forall|k: Seq<u8>| #[trigger]
                        self@.contains_key(k) <==> before@.insert(bytes_63(key), value).contains_key(
                            k,
                        ) by {
                        if self@.contains_key(k) {
                            let i = choose|i: int| self.key_at(k, i);
                            if i < last {
                                assert(before.key_at(k, i));
                            }
                        }
                        if before@.contains_key(k) {
                            let i = choose|i: int| before.key_at(k, i);
                            assert(self.key_at(k, i));
                        }
                        if k == bytes_63(key) {
                            assert(self.key_at(k, last));
                        }
                    }
                    assert forall|k: Seq<u8>| #[trigger]
                        self@.contains_key(k) implies self@[k] == before@.insert(
                        bytes_63(key),
                        value,
                    )[k] by {
                        let i = choose|i: int| self.key_at(k, i);
                        self.lemma_value_at(i);
                        if i < last {
                            assert(before.key_at(k, i));
                            before.lemma_value_at(i);
                        }
                    }
                    assert(self@ =~= before@.insert(bytes_63(key), value));
                }
            },
        }
    }

    /// Takes out what is filed under `key`.
    pub fn remove(&mut self, key: &CreatorId) -> (removed: Option<V>)
        requires
            old(self).wf(),
        ensures
            final(self).wf(),
            final(self)@ == old(self)@.remove(bytes_63(*key)),
            match removed {
                Some(value) => old(self)@.contains_key(bytes_63(*key)) && old(self)@[bytes_63(*key)]
                    == value,
                None => !old(self)@.contains_key(bytes_63(*key)),
            },
    {
        let ghost before = *self;
        match self.position(key) {
            Some(at) => {
                let _ = self.keys.swap_remove(at);
                let value = self.values.swap_remove(at);
                proof {
                    let last = before.keys.len() - 1;
                    before.lemma_value_at(at as int);
                    assert forall|i: int| 0 <= i < self.keys.len() implies self.keys[i] == (if i
                        == at {
                        before.keys[last]
                    } else {
                        before.keys[i]
                    }) && self.values[i] == (if i == at {
                        before.values[last]
                    } else {
                        before.values[i]
                    }) by {}
                    assert(self.wf());
                    assert forall|k: Seq<u8>| #[trigger]
                        self@.contains_key(k) <==> before@.remove(bytes_63(*key)).contains_key(
                            k,
                        ) by {
                        if self@.contains_key(k) {
                            let i = choose|i: int| self.key_at(k, i);
                            let source = if i == at { last } else { i };
                            assert(before.key_at(k, source));
                        }
                        if before@.contains_key(k) && k != bytes_63(*key) {
                            let i = choose|i: int| before.key_at(k, i);
                            if i == last {
                                assert(self.key_at(k, at as int));
                            } else {
                                assert(self.key_at(k, i));
                            }
                        }
                    }
                    assert forall|k: Seq<u8>| #[trigger]
                        self@.contains_key(k) implies self@[k] == before@.remove(bytes_63(*key))[k] by {
                        let i = choose|i: int| self.key_at(k, i);
                        let source = if i == at { last } else { i };
                        self.lemma_value_at(i);
                        assert(before.key_at(k, source));
                        before.lemma_value_at(source);
                    }
                    assert(self@ =~= before@.remove(bytes_63(*key)));
                }
                Some(value)
            },
            None => {
                proof {
                    assert(self@ =~= before@.remove(bytes_63(*key)));
                }
                None
            },
        }
    }
}

} // verus!
