//! What holds of sequences of cache operations, proved over the state that
//! the operations' contracts speak of.
//!
//! Each law takes a state, keys, values and instants as they come, so that
//! it holds of every cache and every clock.

use crate::cache::CacheState;
use crate::clock::Timestamp;
use crate::time::Expiration;
use vstd::prelude::*;

verus! {

/// No time passes between an instant and itself, and whole seconds between
/// two instants are counted from the earlier to the later one only.
pub proof fn elapsed_secs_is_directed(earlier: Timestamp, later: Timestamp)
    ensures
        earlier.elapsed_secs(earlier) == Some(0nat),
        earlier@ <= later@ ==> later.elapsed_secs(earlier) is Some,
        earlier@ < later@ ==> earlier.elapsed_secs(later) is None,
{
}

/// What any read leaves and returns: a value comes back only from an entry
/// under the key, and then the read has changed nothing; where none comes
/// back, the key holds nothing afterwards and the other keys are as they
/// were.
pub proof fn read_outcomes<T>(state: CacheState<T>, key: Seq<char>, now: Timestamp)
    ensures
        state.get(key, now) is Some ==> {
            &&& state.items.contains_key(key)
            &&& state.get(key, now) == Some(state.items[key].data)
            &&& state.evict_expired(key, now) == state
        },
        state.get(key, now) is None ==> state.evict_expired(key, now) == state.delete(key),
{
    if !state.items.contains_key(key) {
        assert(state.items.remove(key) =~= state.items);
    }
}

/// A cache that was just made holds nothing: every key reads as nothing at
/// every instant.
pub proof fn new_is_empty<T>(expiration: Expiration, key: Seq<char>, now: Timestamp)
    ensures
        CacheState::<T>::empty(expiration).get(key, now) is None,
        CacheState::<T>::empty(expiration).evict_expired(key, now) == CacheState::<T>::empty(
            expiration,
        ),
{
}

/// Round trip: a value read at the instant it was stored comes back, under
/// every policy of more than zero seconds.
pub proof fn set_then_get<T>(state: CacheState<T>, key: Seq<char>, value: T, now: Timestamp)
    requires
        state.expiration.seconds() > 0,
    ensures
        state.set(key, value, now).get(key, now) == Some(value),
{
    elapsed_secs_is_directed(now, now);
}

/// Overwrite: of two values stored under one key, the first leaves no trace.
/// The state is the one that the second alone would have left, so that a
/// read returns the second value or none, never the first.
pub proof fn set_overwrites<T>(
    state: CacheState<T>,
    key: Seq<char>,
    first: T,
    first_at: Timestamp,
    second: T,
    second_at: Timestamp,
    now: Timestamp,
)
    ensures
        state.set(key, first, first_at).set(key, second, second_at) == state.set(
            key,
            second,
            second_at,
        ),
        state.set(key, first, first_at).set(key, second, second_at).get(key, now) == if state.expiration.expired(
            second_at,
            now,
        ) {
            None
        } else {
            Some(second)
        },
{
    let once = state.set(key, second, second_at);
    let twice = state.set(key, first, first_at).set(key, second, second_at);
    assert(twice.items =~= once.items);
}

/// Idempotent miss: a key that holds nothing reads as nothing at every
/// instant, and the read leaves the state as it was, so that the next read
/// misses too.
pub proof fn miss_is_idempotent<T>(
    state: CacheState<T>,
    key: Seq<char>,
    now: Timestamp,
    later: Timestamp,
)
    requires
        !state.items.contains_key(key),
    ensures
        state.get(key, now) is None,
        state.evict_expired(key, now) == state,
        state.evict_expired(key, now).get(key, later) is None,
{
}

/// A read that returned nothing is followed by reads that return nothing,
/// whatever the instants, until the key is stored again.
pub proof fn miss_stays_miss<T>(
    state: CacheState<T>,
    key: Seq<char>,
    now: Timestamp,
    later: Timestamp,
)
    requires
        state.get(key, now) is None,
    ensures
        !state.evict_expired(key, now).items.contains_key(key),
        state.evict_expired(key, now).get(key, later) is None,
{
}

/// Delete: after it the key reads as nothing at every instant, whatever was
/// stored under it before, and a second delete changes nothing.
pub proof fn delete_removes<T>(
    state: CacheState<T>,
    key: Seq<char>,
    value: T,
    stored_at: Timestamp,
    now: Timestamp,
)
    ensures
        state.delete(key).get(key, now) is None,
        state.set(key, value, stored_at).delete(key).get(key, now) is None,
        state.delete(key).delete(key) == state.delete(key),
        !state.items.contains_key(key) ==> state.delete(key) == state,
{
    assert(state.delete(key).items.remove(key) =~= state.delete(key).items);
    if !state.items.contains_key(key) {
        assert(state.items.remove(key) =~= state.items);
    }
}

/// Delete touches one key: every other key reads as before.
pub proof fn delete_keeps_others<T>(
    state: CacheState<T>,
    key: Seq<char>,
    other: Seq<char>,
    now: Timestamp,
)
    requires
        other != key,
    ensures
        state.delete(key).get(other, now) == state.get(other, now),
{
}

/// Set touches one key: every other key reads as before.
pub proof fn set_keeps_others<T>(
    state: CacheState<T>,
    key: Seq<char>,
    value: T,
    stored_at: Timestamp,
    other: Seq<char>,
    now: Timestamp,
)
    requires
        other != key,
    ensures
        state.set(key, value, stored_at).get(other, now) == state.get(other, now),
{
}

/// Clear: after it every key reads as nothing at every instant, and the
/// policy is the one the cache was made with.
pub proof fn clear_removes_all<T>(state: CacheState<T>, key: Seq<char>, now: Timestamp)
    ensures
        state.clear().get(key, now) is None,
        state.clear().expiration == state.expiration,
        state.clear().items.dom() == Set::<Seq<char>>::empty(),
{
    assert(state.clear().items.dom() =~= Set::<Seq<char>>::empty());
}

/// Zero length: under a policy of zero seconds no read ever returns a
/// value, not even at the instant the value was stored.
pub proof fn zero_length_never_hits<T>(
    state: CacheState<T>,
    key: Seq<char>,
    value: T,
    stored_at: Timestamp,
    now: Timestamp,
)
    requires
        state.expiration.seconds() == 0,
    ensures
        state.get(key, now) is None,
        state.set(key, value, stored_at).get(key, now) is None,
        state.set(key, value, now).get(key, now) is None,
{
}

/// Expiry goes by age: a stored value is read back exactly while the whole
/// seconds since it was stored are fewer than the policy's length. From
/// then on, and wherever the clock reads a time before the entry's stamp,
/// the read returns nothing.
pub proof fn expiry_is_by_age<T>(
    state: CacheState<T>,
    key: Seq<char>,
    value: T,
    stored_at: Timestamp,
    now: Timestamp,
)
    ensures
        state.set(key, value, stored_at).get(key, now) == match now.elapsed_secs(stored_at) {
            Some(age) => if age < state.expiration.seconds() {
                Some(value)
            } else {
                None
            },
            None => None,
        },
{
}

/// No sliding expiry: a read that finds a live entry leaves it as it was,
/// stamp included, so that what a later read returns is decided by the
/// instant the entry was stored at and not by the reads in between.
pub proof fn reads_do_not_renew<T>(
    state: CacheState<T>,
    key: Seq<char>,
    now: Timestamp,
    later: Timestamp,
)
    requires
        state.live(key, now),
    ensures
        state.evict_expired(key, now) == state,
        state.evict_expired(key, now).items[key].cached_at == state.items[key].cached_at,
        state.evict_expired(key, now).get(key, later) == state.get(key, later),
{
}

/// An entry that has expired stays expired as the clock moves on.
pub proof fn expired_stays_expired<T>(
    state: CacheState<T>,
    key: Seq<char>,
    now: Timestamp,
    later: Timestamp,
)
    requires
        state.items.contains_key(key),
        state.items[key].cached_at@ <= now@ <= later@,
        state.stale(key, now),
    ensures
        state.stale(key, later),
{
}

} // verus!
