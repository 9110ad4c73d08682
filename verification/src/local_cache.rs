//! The three operations of the cache: `set`, `setex` and `get`.
//!
//! They stamp and judge entries by the wall clock. `Cache::setex_at` and
//! `Cache::get_at` do the same work for an instant that the caller names.
//!
//! A write takes the store by exclusive reference and a read by shared
//! reference, so each operation sees the store as a whole and alone. Callers
//! that share one store between threads put it behind a lock.

use crate::clock::now_millis;
use crate::store::{agrees, lookup, stored, Cache};
use vstd::prelude::*;

verus! {

/// Writes `value`, a value in serialized form, under `key` with the time to
/// live `ttl`, in milliseconds, counted from the current instant. A `ttl` of
/// zero or less means that the entry never expires. Any key is accepted, the
/// empty one too.
///
/// The entry that was under `key`, if any, is replaced as a whole: its value,
/// its clock and its time to live. No other key is touched.
pub fn setex(cache: &mut Cache, key: &str, value: &str, ttl: i64)
    ensures
        exists|ts: i64|
            final(cache)@ == #[trigger] stored(old(cache)@, key@, value@, ts as int, ttl as int),
{
    let now = now_millis();
    cache.setex_at(key, value, ttl, now);
}

/// Writes `value` under `key` so that it never expires: `setex` with a time
/// to live of -1. Every later read of `key` returns `value`, at whatever
/// instant, until `key` is written again.
pub fn set(cache: &mut Cache, key: &str, value: &str)
    ensures
        exists|ts: i64|
            final(cache)@ == #[trigger] stored(old(cache)@, key@, value@, ts as int, -1),
        forall|now: int| lookup(final(cache)@, key@, now) == Some(value@),
{
    setex(cache, key, value, -1);
}

/// Reads the value under `key` as it is visible at the current instant.
///
/// Nothing is returned where no entry is under `key` or where the entry has
/// expired. The entry itself stays in the store either way. The clock is read
/// only for an entry that can expire.
pub fn get<'a>(cache: &'a Cache, key: &str) -> (found: Option<&'a str>)
    ensures
        exists|now: i64| agrees(found, #[trigger] lookup(cache@, key@, now as int)),
        !cache@.contains_key(key@) ==> found is None,
        cache@.contains_key(key@) && cache@[key@].never_expires() ==> agrees(
            found,
            Some(cache@[key@].data),
        ),
        found matches Some(data) ==> cache@.contains_key(key@) && data@ == cache@[key@].data,
{
    match cache.item(key) {
        Some(item) => {
            let data = item.data.as_str();
            if item.never_expires() {
                // Visible at every instant: any one bears the contract out.
                assert(agrees(Some(data), lookup(cache@, key@, 0i64 as int)));
                Some(data)
            } else {
                let now = now_millis();
                if item.is_fresh(now) {
                    assert(agrees(Some(data), lookup(cache@, key@, now as int)));
                    Some(data)
                } else {
                    assert(agrees(None, lookup(cache@, key@, now as int)));
                    None
                }
            }
        },
        None => {
            assert(agrees(None, lookup(cache@, key@, 0i64 as int)));
            None
        },
    }
}

} // verus!
