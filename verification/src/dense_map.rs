//! A map from 64-bit keys to values that keeps its values densely packed, in
//! an order that does not depend on hashing.
//!
//! A hash map finds the position of a key; the values themselves live in a
//! vector, so walking the map is walking that vector.

use bevy_platform::collections::HashMap;
use bevy_platform::hash::FixedHasher;
use vstd::prelude::*;

verus! {

/// `bevy_platform::collections::HashMap`, carried as an opaque value.
#[verifier::external_type_specification]
#[verifier::external_body]
#[verifier::reject_recursive_types(K)]
#[verifier::reject_recursive_types(V)]
#[verifier::reject_recursive_types(S)]
pub struct ExHashMap<K, V, S>(HashMap<K, V, S>);

/// `bevy_platform::hash::FixedHasher`, carried as an opaque value.
#[verifier::external_type_specification]
#[verifier::external_body]
pub struct ExFixedHasher(FixedHasher);

/// A hash map from keys to positions.
pub type PositionIndex = HashMap<u64, usize, FixedHasher>;

/// The key-value pairs that a hash map from keys to positions holds.
pub uninterp spec fn index_entries(index: PositionIndex) -> Map<u64, usize>;

/// `HashMap::new`: a map that holds no pair.
#[verifier::external_body]
fn index_new() -> (index: PositionIndex)
    ensures
        index_entries(index).dom() == Set::<u64>::empty(),
{
    HashMap::new()
}

/// `HashMap::get`: the value stored under `key`, or `None` where the map
/// holds no such key.
#[verifier::external_body]
fn index_get(index: &PositionIndex, key: u64) -> (position: Option<usize>)
    ensures
        position == if index_entries(*index).contains_key(key) {
            Some(index_entries(*index)[key])
        } else {
            None::<usize>
        },
{
    index.get(&key).copied()
}

/// `HashMap::insert`: stores `position` under `key`, in place of any value
/// that was stored under it, and leaves every other pair as it was.
#[verifier::external_body]
fn index_insert(index: &mut PositionIndex, key: u64, position: usize)
    ensures
        index_entries(*final(index)) == index_entries(*old(index)).insert(key, position),
{
    index.insert(key, position);
}

/// `HashMap::remove`: takes `key` and its value out of the map and leaves
/// every other pair as it was.
#[verifier::external_body]
fn index_remove(index: &mut PositionIndex, key: u64)
    ensures
        index_entries(*final(index)) == index_entries(*old(index)).remove(key),
{
    index.remove(&key);
}

/// A map from `u64` keys to values.
pub struct DenseMap<V> {
    index: PositionIndex,
    keys: Vec<u64>,
    values: Vec<V>,
}

impl<V> DenseMap<V> {
    /// The keys of the map, in the order in which the map is walked.
    pub closed spec fn keys(&self) -> Seq<u64> {
        self.keys@
    }

    /// The values of the map, each at the position of its key in `keys`.
    pub closed spec fn values(&self) -> Seq<V> {
        self.values@
    }

    /// The index agrees with the two vectors: it sends every key to its
    /// position, and holds nothing else.
    pub closed spec fn wf(&self) -> bool {
        &&& self.keys@.len() == self.values@.len()
        &&& forall|position: int|
            0 <= position < self.keys@.len() ==> index_entries(self.index).contains_key(
                #[trigger] self.keys@[position],
            ) && index_entries(self.index)[self.keys@[position]] == position
        &&& forall|key: u64| #[trigger]
            index_entries(self.index).contains_key(key) ==> index_entries(self.index)[key]
                < self.keys@.len() && self.keys@[index_entries(self.index)[key] as int] == key
    }

    /// The map as a mathematical map.
    pub closed spec fn view(&self) -> Map<u64, V> {
        Map::new(
            |key: u64| index_entries(self.index).contains_key(key),
            |key: u64| self.values@[index_entries(self.index)[key] as int],
        )
    }

    /// The keys are the domain, each once, and the values stand at the
    /// positions of their keys.
    pub proof fn lemma_keys(&self)
        requires
            self.wf(),
        ensures
            self.keys().no_duplicates(),
            self.keys().len() == self.values().len(),
            self.view().dom() =~= self.keys().to_set(),
            self.view().dom().finite(),
            self.view().dom().len() == self.keys().len(),
            forall|position: int|
                0 <= position < self.keys().len() ==> self.view().contains_key(
                    #[trigger] self.keys()[position],
                ) && self.view()[self.keys()[position]] == self.values()[position],
    {
        let keys = self.keys@;
        assert forall|first: int, second: int|
            0 <= first < keys.len() && 0 <= second < keys.len() && first != second implies keys[first]
            != keys[second] by {
            assert(index_entries(self.index)[keys[first]] == first);
            assert(index_entries(self.index)[keys[second]] == second);
        }
        assert forall|key: u64| self.view().dom().contains(key) implies keys.to_set().contains(
            key,
        ) by {
            let position = index_entries(self.index)[key] as int;
            assert(keys[position] == key);
        }
        assert forall|key: u64| keys.to_set().contains(key) implies self.view().dom().contains(
            key,
        ) by {
            let position = choose|position: int| 0 <= position < keys.len() && keys[position] == key;
            assert(index_entries(self.index).contains_key(keys[position]));
        }
        assert(self.view().dom() =~= keys.to_set());
        keys.unique_seq_to_set();
    }

    /// A map that holds nothing.
    pub fn new() -> (map: Self)
        ensures
            map.wf(),
            map@ =~= Map::<u64, V>::empty(),
            map.keys() =~= Seq::<u64>::empty(),
    {
        DenseMap { index: index_new(), keys: Vec::new(), values: Vec::new() }
    }

    /// The number of keys in the map.
    pub fn len(&self) -> (len: usize)
        requires
            self.wf(),
        ensures
            len == self@.dom().len(),
            len == self.keys().len(),
    {
        proof {
            self.lemma_keys();
        }
        self.keys.len()
    }

    /// Whether the map holds `key`.
    pub fn contains_key(&self, key: u64) -> (found: bool)
        requires
            self.wf(),
        ensures
            found == self@.contains_key(key),
    {
        index_get(&self.index, key).is_some()
    }

    /// The value stored under `key`, if there is one.
    pub fn get(&self, key: u64) -> (value: Option<&V>)
        requires
            self.wf(),
        ensures
            match value {
                Some(value) => self@.contains_key(key) && *value == self@[key],
                None => !self@.contains_key(key),
            },
    {
        match index_get(&self.index, key) {
            Some(position) => Some(&self.values[position]),
            None => None,
        }
    }

    /// The key at a position of the walk.
    pub fn key_at(&self, position: usize) -> (key: u64)
        requires
            self.wf(),
            position < self.keys().len(),
        ensures
            key == self.keys()[position as int],
    {
        self.keys[position]
    }

    /// The value at a position of the walk.
    pub fn value_at(&self, position: usize) -> (value: &V)
        requires
            self.wf(),
            position < self.keys().len(),
        ensures
            *value == self.values()[position as int],
            *value == self@[self.keys()[position as int]],
    {
        proof {
            self.lemma_keys();
        }
        &self.values[position]
    }

    /// Stores `value` under `key`. A key that is new goes to the end of the
    /// walk; one that the map holds keeps its place, and its old value is
    /// returned.
    pub fn insert(&mut self, key: u64, value: V) -> (previous: Option<V>)
        requires
            old(self).wf(),
        ensures
            final(self).wf(),
            final(self)@ =~= old(self)@.insert(key, value),
            previous == if old(self)@.contains_key(key) {
                Some(old(self)@[key])
            } else {
                None::<V>
            },
            final(self).keys() =~= if old(self)@.contains_key(key) {
                old(self).keys()
            } else {
                old(self).keys().push(key)
            },
    {
        match index_get(&self.index, key) {
            Some(position) => {
                self.values.push(value);
                let previous = self.values.swap_remove(position);
                Some(previous)
            },
            None => {
                let position = self.keys.len();
                self.keys.push(key);
                self.values.push(value);
                index_insert(&mut self.index, key, position);
                None
            },
        }
    }

    /// Takes `key` and its value out of the map. The last key of the walk
    /// takes the place of the one that left.
    pub fn remove(&mut self, key: u64) -> (removed: Option<V>)
        requires
            old(self).wf(),
        ensures
            final(self).wf(),
            final(self)@ =~= old(self)@.remove(key),
            removed == if old(self)@.contains_key(key) {
                Some(old(self)@[key])
            } else {
                None::<V>
            },
            !old(self)@.contains_key(key) ==> final(self).keys() == old(self).keys(),
    {
        match index_get(&self.index, key) {
            Some(position) => {
                let last = self.keys.len() - 1;
                let moved = self.keys[last];
                index_remove(&mut self.index, key);
                self.keys.swap_remove(position);
                let removed = self.values.swap_remove(position);
                if position != last {
                    index_insert(&mut self.index, moved, position);
                }
                proof {
                    assert(old(self).keys@[position as int] == key);
                    assert(index_entries(old(self).index)[moved] == last);
                    assert forall|other: u64| #[trigger]
                        index_entries(self.index).contains_key(other) implies index_entries(
                        self.index,
                    )[other] < self.keys@.len() && self.keys@[index_entries(
                        self.index,
                    )[other] as int] == other by {
                        assert(index_entries(old(self).index).contains_key(other));
                    }
                }
                Some(removed)
            },
            None => None,
        }
    }
}

} // verus!
