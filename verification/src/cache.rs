//! The cache: values under string keys, each readable until the policy's
//! time has passed since it was stored.
//!
//! Expiry is lazy. Nothing leaves the cache by itself: an entry that has
//! expired stays stored until a read of its key finds it so and removes it.

use crate::clock::Timestamp;
use crate::laws::read_outcomes;
use crate::time::Expiration;
use vstd::hash_map::StringHashMap;
use vstd::prelude::*;

verus! {

/// What is stored under one key: the value and the instant it was stored at.
pub struct CacheItem<T> {
    pub cached_at: Timestamp,
    pub data: T,
}

/// The state of a cache as its contracts see it: the policy it was made
/// with and the stored entries by key.
pub struct CacheState<T> {
    pub expiration: Expiration,
    pub items: Map<Seq<char>, CacheItem<T>>,
}

impl<T> CacheState<T> {
    /// The cache that holds nothing.
    pub open spec fn empty(expiration: Expiration) -> Self {
        CacheState { expiration, items: Map::empty() }
    }

    /// The state after `value` was stored under `key` at `now`: the entry
    /// takes the place of whatever the key held, with a stamp of its own.
    pub open spec fn set(self, key: Seq<char>, value: T, now: Timestamp) -> Self {
        CacheState {
            expiration: self.expiration,
            items: self.items.insert(key, CacheItem { cached_at: now, data: value }),
        }
    }

    /// Whether a read of `key` at `now` finds a value: the key holds an
    /// entry, and the entry has not expired.
    pub open spec fn live(self, key: Seq<char>, now: Timestamp) -> bool {
        self.items.contains_key(key) && !self.expiration.expired(self.items[key].cached_at, now)
    }

    /// What a read of `key` at `now` returns.
    pub open spec fn get(self, key: Seq<char>, now: Timestamp) -> Option<T> {
        if self.live(key, now) {
            Some(self.items[key].data)
        } else {
            None
        }
    }

    /// Whether a read of `key` at `now` finds an entry that has expired.
    pub open spec fn stale(self, key: Seq<char>, now: Timestamp) -> bool {
        self.items.contains_key(key) && self.expiration.expired(self.items[key].cached_at, now)
    }

    /// The state that a read of `key` at `now` leaves: the entry under `key`
    /// is gone if it was stale, and nothing else has changed.
    pub open spec fn evict_expired(self, key: Seq<char>, now: Timestamp) -> Self {
        if self.stale(key, now) {
            self.delete(key)
        } else {
            self
        }
    }

    /// The state without an entry under `key`.
    pub open spec fn delete(self, key: Seq<char>) -> Self {
        CacheState { expiration: self.expiration, items: self.items.remove(key) }
    }

    /// The state without any entry.
    pub open spec fn clear(self) -> Self {
        CacheState::empty(self.expiration)
    }
}

/// A cache of values of type `T` under string keys, with one expiration
/// policy for all of them, fixed when the cache is made.
#[verifier::reject_recursive_types(T)]
pub struct Cache<T> {
    expiration: Expiration,
    items: StringHashMap<CacheItem<T>>,
}

impl<T> View for Cache<T> {
    type V = CacheState<T>;

    closed spec fn view(&self) -> CacheState<T> {
        CacheState { expiration: self.expiration, items: self.items@ }
    }
}

impl<T> Cache<T> {
    /// Reads the system clock.
    fn now(&self) -> Timestamp {
        Timestamp::now()
    }

    /// An empty cache whose entries live as long as `expiration` says.
    pub fn new(expiration: Expiration) -> (cache: Cache<T>)
        ensures
            cache@ == CacheState::<T>::empty(expiration),
    {
        Cache { expiration, items: StringHashMap::new() }
    }

    /// Stores `value` under `key`, stamped with the clock's present reading.
    /// The entry takes the place of whatever the key held.
    pub fn set(&mut self, key: &str, value: T)
        ensures
            final(self)@ == old(self)@.set(key@, value, final(self)@.items[key@].cached_at),
    {
        let now = self.now();
        self.set_at(key, value, now);
    }

    /// Stores `value` under `key`, stamped with `now`. The entry takes the
    /// place of whatever the key held.
    pub fn set_at(&mut self, key: &str, value: T, now: Timestamp)
        ensures
            final(self)@ == old(self)@.set(key@, value, now),
    {
        self.items.insert(key.to_string(), CacheItem { cached_at: now, data: value });
    }

    /// Reads `key` as of the clock's present reading: the outcome is that
    /// of [`Self::get_at`] at some instant, which the clock decides.
    ///
    /// Whatever the clock reads, a value that comes back is the one stored
    /// under `key`, and then nothing has changed; where none comes back, the
    /// key holds nothing afterwards. A policy of length zero never yields a
    /// value.
    pub fn get(&mut self, key: &str) -> (value: Option<&T>)
        ensures
            exists|now: Timestamp|
                {
                    &&& final(self)@ == #[trigger] old(self)@.evict_expired(key@, now)
                    &&& match value {
                        Some(data) => old(self)@.get(key@, now) == Some(*data),
                        None => old(self)@.get(key@, now) is None,
                    }
                },
            match value {
                Some(data) => {
                    &&& old(self)@.items.contains_key(key@)
                    &&& old(self)@.items[key@].data == *data
                    &&& final(self)@ == old(self)@
                },
                None => final(self)@ == old(self)@.delete(key@),
            },
            old(self)@.expiration.seconds() == 0 ==> value is None,
    {
        let now = self.now();
        proof {
            read_outcomes(old(self)@, key@, now);
        }
        self.get_at(key, now)
    }

    /// Reads `key` as of `now`. An entry that has expired by then is removed
    /// and not returned; one that has not is returned and left as it was,
    /// stamp included.
    pub fn get_at(&mut self, key: &str, now: Timestamp) -> (value: Option<&T>)
        ensures
            final(self)@ == old(self)@.evict_expired(key@, now),
            match value {
                Some(data) => old(self)@.get(key@, now) == Some(*data),
                None => old(self)@.get(key@, now) is None,
            },
    {
        {
            let item = self.items.get(key);
            if let Some(item) = item {
                if self.expiration.is_expired(&item.cached_at, &now) {
                    self.delete(key);
                }
            }
        }
        match self.items.get(key) {
            Some(item) => Some(&item.data),
            None => None,
        }
    }

    /// Removes the entry under `key`, if there is one.
    pub fn delete(&mut self, key: &str)
        ensures
            final(self)@ == old(self)@.delete(key@),
    {
        self.items.remove(key);
    }

    /// Removes every entry.
    pub fn clear(&mut self)
        ensures
            final(self)@ == old(self)@.clear(),
    {
        self.items = StringHashMap::new()
    }
}

} // verus!
