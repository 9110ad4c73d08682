//! One cache entry: a serialized payload, the instant it was written and how
//! long it stays visible.

use vstd::prelude::*;

verus! {

/// What the cache keeps under one key.
///
/// `data` is the payload in serialized form; the cache never looks inside it.
/// `ts` is the instant of insertion in milliseconds since the Unix epoch, and
/// `ttl` the time to live in milliseconds. A `ttl` of zero or less means that
/// the entry never expires.
#[derive(Debug)]
pub struct CacheItem {
    pub data: String,
    pub ts: i64,
    pub ttl: i64,
}

/// The mathematical content of a `CacheItem`.
pub struct ItemView {
    pub data: Seq<char>,
    pub ts: int,
    pub ttl: int,
}

impl ItemView {
    /// An entry with a time to live of zero or less stays visible for ever.
    pub open spec fn never_expires(self) -> bool {
        self.ttl <= 0
    }

    /// Whether the entry is still visible at the instant `now`. The bound is
    /// inclusive: an entry that is exactly `ttl` milliseconds old is fresh.
    pub open spec fn fresh_at(self, now: int) -> bool {
        self.never_expires() || now - self.ts <= self.ttl
    }
}

impl View for CacheItem {
    type V = ItemView;

    open spec fn view(&self) -> ItemView {
        ItemView { data: self.data@, ts: self.ts as int, ttl: self.ttl as int }
    }
}

impl CacheItem {
    /// Frames a serialized payload with its instant of insertion and its time
    /// to live.
    pub fn new(data: String, ts: i64, ttl: i64) -> (item: CacheItem)
        ensures
            item@ == (ItemView { data: data@, ts: ts as int, ttl: ttl as int }),
    {
        CacheItem { data, ts, ttl }
    }

    /// Whether the entry never expires.
    pub fn never_expires(&self) -> (forever: bool)
        ensures
            forever == self@.never_expires(),
    {
        self.ttl <= 0
    }

    /// Whether the entry is still visible at the instant `now`.
    ///
    /// The age is taken as the exact difference `now - ts`: the subtraction is
    /// carried out in a wider type, so no pair of instants overflows.
    pub fn is_fresh(&self, now: i64) -> (fresh: bool)
        ensures
            fresh == self@.fresh_at(now as int),
    {
        if self.ttl <= 0 {
            true
        } else {
            let age: i128 = (now as i128) - (self.ts as i128);
            age <= (self.ttl as i128)
        }
    }
}

} // verus!
