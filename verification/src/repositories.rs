//! The keyed-entity persistence contract consumed by the scheduler.

use vstd::prelude::*;

verus! {

/// A keyed store of entities.  `entries()` is the mathematical content of the
/// store: a map from key to the stored entity's value.  Every operation may
/// instead surface a backend-specific error (an unreachable database, a
/// rejected write); an error leaves no change durably recorded.
///
/// Nothing here promises that an operation succeeds: a backend is free to
/// fail any call.  What is promised is what each outcome means for
/// `entries()`.
pub trait Repository<K, V: View>: Sized {
    /// An error that communicates that something went wrong when talking to
    /// the backing store.
    type Error;

    /// The stored entities, keyed by their primary key.
    spec fn entries(&self) -> Map<K, <V as View>::V>;

    /// The key under which an entity is stored.
    spec fn key_of(v: <V as View>::V) -> K;

    /// Stores the entity only if its key is absent; returns the key on
    /// success and `None` if the key was already in use.
    fn insert(&mut self, entity: &V) -> (r: Result<Option<K>, Self::Error>)
        ensures
            match r {
                Ok(Some(k)) => k == Self::key_of(entity@) && !old(self).entries().contains_key(k)
                    && final(self).entries() == old(self).entries().insert(k, entity@),
                Ok(None) => old(self).entries().contains_key(Self::key_of(entity@))
                    && final(self).entries() == old(self).entries(),
                Err(_) => final(self).entries() == old(self).entries(),
            },
    ;

    /// Returns the entity stored under the key, or `None` if the key is
    /// absent.
    fn get(&mut self, key: &K) -> (r: Result<Option<V>, Self::Error>)
        ensures
            final(self).entries() == old(self).entries(),
            match r {
                Ok(Some(v)) => old(self).entries().contains_key(*key)
                    && v@ == old(self).entries()[*key],
                Ok(None) => !old(self).entries().contains_key(*key),
                Err(_) => true,
            },
    ;

    /// Whether the store holds an entity under the key; derived from `get`.
    fn contains(&mut self, key: &K) -> (r: Result<bool, Self::Error>)
        ensures
            final(self).entries() == old(self).entries(),
            match r {
                Ok(b) => b == old(self).entries().contains_key(*key),
                Err(_) => true,
            },
    {
        match self.get(key) {
            Ok(opt) => Ok(opt.is_some()),
            Err(e) => Err(e),
        }
    }

    /// Overwrites the entity only if its key is already present; returns the
    /// key on success and `None` if the key was absent (no insert-on-update).
    fn update(&mut self, entity: &V) -> (r: Result<Option<K>, Self::Error>)
        ensures
            match r {
                Ok(Some(k)) => k == Self::key_of(entity@) && old(self).entries().contains_key(k)
                    && final(self).entries() == old(self).entries().insert(k, entity@),
                Ok(None) => !old(self).entries().contains_key(Self::key_of(entity@))
                    && final(self).entries() == old(self).entries(),
                Err(_) => final(self).entries() == old(self).entries(),
            },
    ;

    /// Deletes the entity under the key; returns the key if something was
    /// deleted and `None` if the key was absent.
    fn remove(&mut self, key: &K) -> (r: Result<Option<K>, Self::Error>)
        ensures
            match r {
                Ok(Some(k)) => k == *key && old(self).entries().contains_key(*key)
                    && final(self).entries() == old(self).entries().remove(*key),
                Ok(None) => !old(self).entries().contains_key(*key)
                    && final(self).entries() == old(self).entries(),
                Err(_) => final(self).entries() == old(self).entries(),
            },
    ;
}

} // verus!
