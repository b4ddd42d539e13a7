//! The container that a dispatch threads through the handlers: values keyed by
//! the identity of their type, at most one value per type.
use std::collections::HashMap;
use vstd::prelude::*;
use vstd::std_specs::hash::obeys_key_model;

verus! {

broadcast use vstd::std_specs::hash::group_hash_axioms;

/// A map from type identities (plain `u64` keys) to values.
///
/// Inserting a value whose key is already present replaces the old value, so
/// the container holds at most one value of each type.
pub struct DependencyMap<V> {
    map: HashMap<u64, V>,
}

impl<V> View for DependencyMap<V> {
    type V = Map<u64, V>;

    closed spec fn view(&self) -> Map<u64, V> {
        self.map@
    }
}

impl<V> DependencyMap<V> {
    /// An empty container.
    pub fn new() -> (m: Self)
        ensures
            m@ == Map::<u64, V>::empty(),
    {
        DependencyMap { map: HashMap::new() }
    }

    /// Stores `value` under `key`, handing back the value that it replaces.
    pub fn insert(&mut self, key: u64, value: V) -> (previous: Option<V>)
        ensures
            final(self)@ == old(self)@.insert(key, value),
            previous == (if old(self)@.contains_key(key) {
                Some(old(self)@[key])
            } else {
                None::<V>
            }),
    {
        proof {
            assert(obeys_key_model::<u64>());
        }
        self.map.insert(key, value)
    }

    /// Takes the value stored under `key` out of the container.
    pub fn remove(&mut self, key: u64) -> (removed: Option<V>)
        ensures
            final(self)@ == old(self)@.remove(key),
            removed == (if old(self)@.contains_key(key) {
                Some(old(self)@[key])
            } else {
                None::<V>
            }),
    {
        proof {
            assert(obeys_key_model::<u64>());
        }
        self.map.remove(&key)
    }

    /// The value stored under `key`, if any.
    pub fn get(&self, key: u64) -> (value: Option<&V>)
        ensures
            value == (if self@.contains_key(key) {
                Some(&self@[key])
            } else {
                None::<&V>
            }),
    {
        proof {
            assert(obeys_key_model::<u64>());
        }
        self.map.get(&key)
    }

    /// Whether a value is stored under `key`.
    pub fn contains(&self, key: u64) -> (present: bool)
        ensures
            present == self@.contains_key(key),
    {
        proof {
            assert(obeys_key_model::<u64>());
        }
        self.map.contains_key(&key)
    }

    /// The number of values stored.
    pub fn len(&self) -> (n: usize)
        ensures
            n == self@.len(),
    {
        proof {
            assert(obeys_key_model::<u64>());
        }
        self.map.len()
    }
}

} // verus!
