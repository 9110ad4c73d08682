//! What holds of every store, whatever was written to it and whenever it is
//! read. Each statement is over `stored` and `lookup`, the functions in which
//! the contracts of the cache operations are written.

use crate::entry::ItemView;
use crate::store::{lookup, stored, Contents};
use vstd::prelude::*;

verus! {

/// A value written with a time to live of zero or less is returned by every
/// later read of its key, at whatever instant: there is no implicit
/// expiration. Zero and the negative numbers are treated alike.
pub proof fn value_without_expiry_is_always_visible(
    contents: Contents,
    key: Seq<char>,
    data: Seq<char>,
    ts: int,
    ttl: int,
    now: int,
)
    requires
        ttl <= 0,
    ensures
        lookup(stored(contents, key, data, ts, ttl), key, now) == Some(data),
{
}

/// A value written with a positive time to live is returned while its age is
/// at most that time, and hidden once its age is greater.
pub proof fn value_is_visible_until_its_time_is_up(
    contents: Contents,
    key: Seq<char>,
    data: Seq<char>,
    ts: int,
    ttl: int,
    now: int,
)
    requires
        ttl > 0,
    ensures
        now - ts <= ttl ==> lookup(stored(contents, key, data, ts, ttl), key, now) == Some(data),
        now - ts > ttl ==> lookup(stored(contents, key, data, ts, ttl), key, now) is None,
{
}

/// The bound is inclusive: a value whose age is exactly its time to live is
/// still returned.
pub proof fn value_is_visible_at_the_boundary(
    contents: Contents,
    key: Seq<char>,
    data: Seq<char>,
    ts: int,
    ttl: int,
)
    ensures
        lookup(stored(contents, key, data, ts, ttl), key, ts + ttl) == Some(data),
{
}

/// Writing twice under one key leaves what the second write alone would have
/// left: the value, the clock and the time to live of the first are gone. So a
/// value that never expired, once overwritten with a time to live, is hidden
/// when that time is up.
pub proof fn overwrite_replaces_value_clock_and_ttl(
    contents: Contents,
    key: Seq<char>,
    data1: Seq<char>,
    ts1: int,
    ttl1: int,
    data2: Seq<char>,
    ts2: int,
    ttl2: int,
    now: int,
)
    ensures
        stored(stored(contents, key, data1, ts1, ttl1), key, data2, ts2, ttl2) == stored(
            contents,
            key,
            data2,
            ts2,
            ttl2,
        ),
        ttl2 > 0 && now - ts2 > ttl2 ==> lookup(
            stored(stored(contents, key, data1, ts1, ttl1), key, data2, ts2, ttl2),
            key,
            now,
        ) is None,
{
}

/// A write under one key changes what no other key returns.
pub proof fn write_leaves_other_keys_alone(
    contents: Contents,
    key: Seq<char>,
    data: Seq<char>,
    ts: int,
    ttl: int,
    other: Seq<char>,
    now: int,
)
    requires
        other != key,
    ensures
        lookup(stored(contents, key, data, ts, ttl), other, now) == lookup(contents, other, now),
{
}

/// Writes under two different keys may come in either order: the store ends
/// up the same.
pub proof fn writes_to_different_keys_commute(
    contents: Contents,
    key1: Seq<char>,
    data1: Seq<char>,
    ts1: int,
    ttl1: int,
    key2: Seq<char>,
    data2: Seq<char>,
    ts2: int,
    ttl2: int,
)
    requires
        key1 != key2,
    ensures
        stored(stored(contents, key1, data1, ts1, ttl1), key2, data2, ts2, ttl2) == stored(
            stored(contents, key2, data2, ts2, ttl2),
            key1,
            data1,
            ts1,
            ttl1,
        ),
{
}

/// One write: a key, the payload and the stamp it is stored with.
pub struct Write {
    pub key: Seq<char>,
    pub data: Seq<char>,
    pub ts: int,
    pub ttl: int,
}

/// The contents after the writes of `writes` have been made one after the
/// other, the first of the sequence first.
pub open spec fn stored_all(contents: Contents, writes: Seq<Write>) -> Contents
    decreases writes.len(),
{
    if writes.len() == 0 {
        contents
    } else {
        let last = writes.last();
        stored(stored_all(contents, writes.drop_last()), last.key, last.data, last.ts, last.ttl)
    }
}

/// Whether no two writes of `writes` are under the same key.
pub open spec fn keys_differ(writes: Seq<Write>) -> bool {
    forall|i: int, j: int|
        0 <= i < j < writes.len() ==> (#[trigger] writes[i]).key != (#[trigger] writes[j]).key
}

/// Of any number of writes, made one after the other, the last one under a
/// key decides what the key holds: its value, its clock and its time to live.
pub proof fn last_write_wins(contents: Contents, writes: Seq<Write>, i: int)
    requires
        0 <= i < writes.len(),
        forall|j: int| i < j < writes.len() ==> (#[trigger] writes[j]).key != writes[i].key,
    ensures
        stored_all(contents, writes).contains_key(writes[i].key),
        stored_all(contents, writes)[writes[i].key] == (ItemView {
            data: writes[i].data,
            ts: writes[i].ts,
            ttl: writes[i].ttl,
        }),
    decreases writes.len(),
{
    if i < writes.len() - 1 {
        let earlier = writes.drop_last();
        assert(earlier[i] == writes[i]);
        assert forall|j: int| i < j < earlier.len() implies (#[trigger] earlier[j]).key
            != earlier[i].key by {
            assert(earlier[j] == writes[j]);
        }
        assert(writes[writes.len() - 1].key != writes[i].key);
        last_write_wins(contents, earlier, i);
    }
}

/// A key under which none of the writes was made holds what it held before
/// them, or nothing if it held nothing.
pub proof fn unwritten_key_keeps_its_entry(contents: Contents, writes: Seq<Write>, key: Seq<char>)
    requires
        forall|j: int| 0 <= j < writes.len() ==> (#[trigger] writes[j]).key != key,
    ensures
        stored_all(contents, writes).contains_key(key) == contents.contains_key(key),
        contents.contains_key(key) ==> stored_all(contents, writes)[key] == contents[key],
        forall|now: int| lookup(stored_all(contents, writes), key, now) == lookup(contents, key, now),
    decreases writes.len(),
{
    if writes.len() > 0 {
        let earlier = writes.drop_last();
        assert forall|j: int| 0 <= j < earlier.len() implies (#[trigger] earlier[j]).key != key by {
            assert(earlier[j] == writes[j]);
        }
        assert(writes[writes.len() - 1].key != key);
        unwritten_key_keeps_its_entry(contents, earlier, key);
    }
}

/// After any number of writes under keys that all differ, made in whatever
/// order, each key holds the entry of its own write: no write spoils what
/// another stored. Where a write does not expire, a read of its key returns
/// the value written under it, at whatever instant.
pub proof fn writes_to_different_keys_all_land(
    contents: Contents,
    writes: Seq<Write>,
    i: int,
    now: int,
)
    requires
        keys_differ(writes),
        0 <= i < writes.len(),
    ensures
        stored_all(contents, writes).contains_key(writes[i].key),
        stored_all(contents, writes)[writes[i].key] == (ItemView {
            data: writes[i].data,
            ts: writes[i].ts,
            ttl: writes[i].ttl,
        }),
        writes[i].ttl <= 0 ==> lookup(stored_all(contents, writes), writes[i].key, now) == Some(
            writes[i].data,
        ),
{
    last_write_wins(contents, writes, i);
}

/// An entry, once written, stays in the store: a later write under any key
/// removes none.
pub proof fn write_removes_no_key(
    contents: Contents,
    key: Seq<char>,
    data: Seq<char>,
    ts: int,
    ttl: int,
)
    ensures
        stored(contents, key, data, ts, ttl).dom() == contents.dom().insert(key),
{
}

/// Expiry is for good: a key that returns nothing at one instant returns
/// nothing at every later one, until it is written again.
pub proof fn expired_entry_stays_hidden(contents: Contents, key: Seq<char>, now: int, later: int)
    requires
        lookup(contents, key, now) is None,
        now <= later,
    ensures
        lookup(contents, key, later) is None,
{
}

} // verus!
