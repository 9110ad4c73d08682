//! The store: one mapping from keys to entries, and what a reader sees of it
//! at a given instant.

use crate::entry::{CacheItem, ItemView};
use vstd::hash_map::StringHashMap;
use vstd::prelude::*;

verus! {

/// The contents of a store: the entry last written under each key.
pub type Contents = Map<Seq<char>, ItemView>;

/// The contents after `data` has been written under `key` at the instant `ts`
/// with the time to live `ttl`. An entry already under `key` is replaced as a
/// whole; every other key keeps its entry.
pub open spec fn stored(
    contents: Contents,
    key: Seq<char>,
    data: Seq<char>,
    ts: int,
    ttl: int,
) -> Contents {
    contents.insert(key, ItemView { data, ts, ttl })
}

/// What a reader gets for `key` at the instant `now`: the payload of the entry
/// under `key` if there is one and it is still fresh, and nothing otherwise.
/// An expired entry is hidden, not removed.
pub open spec fn lookup(contents: Contents, key: Seq<char>, now: int) -> Option<Seq<char>> {
    if contents.contains_key(key) && contents[key].fresh_at(now) {
        Some(contents[key].data)
    } else {
        None
    }
}

/// Whether what a read returned is what the contents prescribe: the same
/// payload, or nothing where nothing is visible.
pub open spec fn agrees(found: Option<&str>, expected: Option<Seq<char>>) -> bool {
    match found {
        Some(data) => expected == Some(data@),
        None => expected is None,
    }
}

/// A mapping from string keys to entries. Keys are unique; an entry stays in
/// the store until another is written under its key.
pub struct Cache {
    entries: StringHashMap<CacheItem>,
}

impl View for Cache {
    type V = Contents;

    closed spec fn view(&self) -> Contents {
        self.entries@.map_values(|item: CacheItem| item@)
    }
}

impl Cache {
    /// An empty store.
    pub fn new() -> (cache: Cache)
        ensures
            cache@ == Contents::empty(),
    {
        Cache { entries: StringHashMap::new() }
    }

    /// The entry under `key`, fresh or not.
    pub fn item(&self, key: &str) -> (found: Option<&CacheItem>)
        ensures
            found is Some <==> self@.contains_key(key@),
            found matches Some(item) ==> item@ == self@[key@],
    {
        self.entries.get(key)
    }

    /// Writes `data` under `key`, stamped with the instant `now` and the time
    /// to live `ttl`. The entry that was under `key`, if any, is replaced with
    /// its clock and its time to live; no other key is touched.
    pub fn setex_at(&mut self, key: &str, data: &str, ttl: i64, now: i64)
        ensures
            final(self)@ == stored(old(self)@, key@, data@, now as int, ttl as int),
    {
        let item = CacheItem::new(data.to_owned(), now, ttl);
        self.entries.insert(key.to_owned(), item);
    }

    /// The payload under `key` as a reader sees it at the instant `now`.
    pub fn get_at(&self, key: &str, now: i64) -> (found: Option<&str>)
        ensures
            agrees(found, lookup(self@, key@, now as int)),
    {
        match self.item(key) {
            Some(item) => {
                if item.is_fresh(now) {
                    Some(item.data.as_str())
                } else {
                    None
                }
            },
            None => None,
        }
    }
}

} // verus!
