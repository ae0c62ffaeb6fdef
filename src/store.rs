use std::hash::Hash;
use vstd::prelude::*;

use crate::model::{create_op, delete_op, lookup, update_op};

verus! {

/// `dashmap::DashMap`, a sharded map whose shards each sit behind their own
/// read-write lock; opaque here.
#[verifier::external_type_specification]
#[verifier::external_body]
#[verifier::reject_recursive_types(K)]
#[verifier::reject_recursive_types(V)]
#[verifier::reject_recursive_types(S)]
pub struct ExDashMap<K, V, S>(dashmap::DashMap<K, V, S>);

/// What keys must satisfy for a `Db` to be described by its view: `Hash` and
/// `==` behave as vstd's hash-map model asks, and keys with equal views are
/// the same key.
pub open spec fn key_model<K: View>() -> bool {
    &&& vstd::std_specs::hash::obeys_key_model::<K>()
    &&& forall|a: K, b: K| a@ == b@ ==> a == b
}

/// A store mapping keys to values, viewed as a map from the keys' views to
/// the values.
///
/// A `Db` has one owner: every change goes through `&mut self`, so its view
/// always describes the map it holds. Callers that share one store between
/// threads put it behind a lock.
#[verifier::reject_recursive_types(K)]
#[verifier::reject_recursive_types(V)]
pub struct Db<K: View + Eq + Hash, V> {
    map: dashmap::DashMap<K, V>,
    contents: Ghost<Map<K::V, V>>,
}

impl<K: View + Eq + Hash, V> View for Db<K, V> {
    type V = Map<K::V, V>;

    closed spec fn view(&self) -> Map<K::V, V> {
        self.contents@
    }
}

impl<K: View + Eq + Hash, V> Db<K, V> {
    /// Every store is over keys that follow `key_model`.
    #[verifier::type_invariant]
    closed spec fn keys_follow_model(&self) -> bool {
        key_model::<K>()
    }

    /// Relies on `DashMap::new`: a map with no entry, hashed by `RandomState`.
    #[verifier::external_body]
    fn empty() -> (r: Db<K, V>)
        requires
            key_model::<K>(),
        ensures
            r@ =~= Map::empty(),
    {
        Db { map: dashmap::DashMap::new(), contents: Ghost(Map::empty()) }
    }

    /// An empty store.
    pub fn init() -> (r: Db<K, V>)
        requires
            key_model::<K>(),
        ensures
            r@ == Map::<K::V, V>::empty(),
    {
        Db::empty()
    }
}

impl<K: View + Eq + Hash, V: Clone> Db<K, V> {
    /// Relies on `DashMap::contains_key`: whether an entry for `key` is held.
    #[verifier::external_body]
    fn holds_key(&self, key: &K) -> (r: bool)
        requires
            key_model::<K>(),
        ensures
            r == self@.contains_key(key@),
    {
        self.map.contains_key(key)
    }

    /// Relies on `DashMap::insert`: `value` is stored under `key`, and the
    /// value it replaces, if any, is handed back.
    #[verifier::external_body]
    fn put(&mut self, key: K, value: V) -> (r: Option<V>)
        requires
            key_model::<K>(),
        ensures
            final(self)@ == old(self)@.insert(key@, value),
            r == lookup(old(self)@, key@),
    {
        self.map.insert(key, value)
    }

    /// Relies on `DashMap::get` and `Ref::value`: the value held for `key`,
    /// cloned.
    #[verifier::external_body]
    fn cloned_value(&self, key: &K) -> (r: Option<V>)
        requires
            key_model::<K>(),
        ensures
            r is Some == self@.contains_key(key@),
            r matches Some(v) ==> cloned(self@[key@], v),
    {
        self.map.get(key).map(|entry| entry.value().clone())
    }

    /// Relies on `DashMap::get_mut` and `RefMut::value_mut`: the value held
    /// for `key`, if any, is swapped for `value`.
    #[verifier::external_body]
    fn swap_value(&mut self, key: &K, value: V) -> (r: Option<V>)
        requires
            key_model::<K>(),
        ensures
            (final(self)@, r) == update_op(old(self)@, key@, value),
    {
        self.map.get_mut(key).map(|mut entry| std::mem::replace(entry.value_mut(), value))
    }

    /// Relies on `DashMap::remove`: the entry for `key`, if any, is taken out.
    #[verifier::external_body]
    fn take_value(&mut self, key: &K) -> (r: Option<V>)
        requires
            key_model::<K>(),
        ensures
            (final(self)@, r) == delete_op(old(self)@, key@),
    {
        self.map.remove(key).map(|entry| entry.1)
    }

    /// Inserts `value` under `key` if the key is absent, and says whether it
    /// did. Through `&mut self` no other call comes between the test and the
    /// insertion. No other key changes.
    pub fn create(&mut self, key: K, value: V) -> (r: bool)
        ensures
            (final(self)@, r) == create_op(old(self)@, key@, value),
            r == !old(self)@.contains_key(key@),
            r ==> lookup(final(self)@, key@) == Some(value),
            !r ==> final(self)@ == old(self)@,
            final(self)@.remove(key@) == old(self)@.remove(key@),
    {
        proof {
            use_type_invariant(&*self);
        }
        let ghost k = key@;
        if self.holds_key(&key) {
            false
        } else {
            let _ = self.put(key, value);
            assert(final(self)@.remove(k) =~= old(self)@.remove(k));
            true
        }
    }

    /// A clone of the value held for `key`, or `None` where the key is
    /// absent.
    pub fn read(&self, key: &K) -> (r: Option<V>)
        ensures
            r is Some == self@.contains_key(key@),
            r matches Some(v) ==> cloned(self@[key@], v),
    {
        proof {
            use_type_invariant(self);
        }
        self.cloned_value(key)
    }

    /// Replaces the value of a present key and hands back the previous one.
    /// An absent key stays absent: update never creates. No other key
    /// changes, and the set of keys stays as it was.
    pub fn update(&mut self, key: &K, value: V) -> (r: Option<V>)
        ensures
            (final(self)@, r) == update_op(old(self)@, key@, value),
            r == lookup(old(self)@, key@),
            final(self)@.dom() == old(self)@.dom(),
            old(self)@.contains_key(key@) ==> final(self)@[key@] == value,
            final(self)@.remove(key@) == old(self)@.remove(key@),
    {
        proof {
            use_type_invariant(&*self);
        }
        let r = self.swap_value(key, value);
        proof {
            if old(self)@.contains_key(key@) {
                assert(final(self)@.dom() =~= old(self)@.dom());
                assert(final(self)@.remove(key@) =~= old(self)@.remove(key@));
            }
        }
        r
    }

    /// Removes the key and hands back its value, or `None` where it was
    /// absent, in which case nothing changes. No other key changes.
    pub fn delete(&mut self, key: &K) -> (r: Option<V>)
        ensures
            (final(self)@, r) == delete_op(old(self)@, key@),
            r == lookup(old(self)@, key@),
            !final(self)@.contains_key(key@),
            r is None ==> final(self)@ == old(self)@,
            final(self)@.remove(key@) == old(self)@.remove(key@),
    {
        proof {
            use_type_invariant(&*self);
        }
        let r = self.take_value(key);
        proof {
            assert(final(self)@.remove(key@) =~= old(self)@.remove(key@));
            if r is None {
                assert(final(self)@ =~= old(self)@);
            }
        }
        r
    }
}

} // verus!
