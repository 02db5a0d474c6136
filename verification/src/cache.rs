//! The in-memory response cache: a map from request path to response bytes.
//!
//! Entries are immutable once stored; they only ever leave the map through
//! `remove` or `clear`. There is no eviction and no size bound, by design.

use vstd::prelude::*;
use vstd::hash_map::StringHashMap;

verus! {

/// Path-keyed map of cached response bytes, modelled as
/// `Map<Seq<char>, Seq<u8>>`.
pub struct CacheMap {
    entries: StringHashMap<Vec<u8>>,
}

impl View for CacheMap {
    type V = Map<Seq<char>, Seq<u8>>;

    closed spec fn view(&self) -> Map<Seq<char>, Seq<u8>> {
        self.entries@.map_values(|v: Vec<u8>| v@)
    }
}

/// Copies a byte vector element by element.
pub(crate) fn copy_bytes(v: &Vec<u8>) -> (r: Vec<u8>)
    ensures
        r@ == v@,
{
    let mut out: Vec<u8> = Vec::new();
    let mut i: usize = 0;
    while i < v.len()
        invariant
            i <= v.len(),
            out@ == v@.subrange(0, i as int),
        decreases v.len() - i,
    {
        out.push(v[i]);
        proof {
            assert(out@ =~= v@.subrange(0, i as int + 1));
        }
        i = i + 1;
    }
    proof {
        assert(out@ =~= v@);
    }
    out
}

impl CacheMap {
    /// An empty cache.
    pub fn new() -> (r: Self)
        ensures
            r@ == Map::<Seq<char>, Seq<u8>>::empty(),
    {
        CacheMap { entries: StringHashMap::new() }
    }

    /// Number of cached entries.
    pub fn len(&self) -> (r: usize)
        ensures
            r == self@.len(),
    {
        proof {
            assert(self@.dom() =~= self.entries@.dom());
        }
        self.entries.len()
    }

    /// Whether `key` is cached.
    pub fn contains(&self, key: &String) -> (r: bool)
        ensures
            r == self@.contains_key(key@),
    {
        self.entries.contains_key(key.as_str())
    }

    /// Concurrent-safe read path: returns a copy of the complete entry
    /// stored under `key`, or `None` when the key is absent. A result is
    /// never a partial value: it equals the full byte sequence of the map
    /// at `key`.
    pub fn lookup(&self, key: &String) -> (r: Option<Vec<u8>>)
        ensures
            match r {
                Some(v) => self@.contains_key(key@) && v@ == self@[key@],
                None => !self@.contains_key(key@),
            },
    {
        match self.entries.get(key.as_str()) {
            Some(v) => Some(copy_bytes(v)),
            None => None,
        }
    }

    /// Stores `value` under `key`, replacing any earlier entry wholesale.
    pub fn insert(&mut self, key: String, value: Vec<u8>)
        ensures
            final(self)@ == old(self)@.insert(key@, value@),
    {
        let ghost k = key@;
        let ghost v = value@;
        self.entries.insert(key, value);
        proof {
            assert(self@ =~= old(self)@.insert(k, v));
        }
    }

    /// Removes `key`; reports whether it was present. An absent key leaves
    /// the map unchanged.
    pub fn remove(&mut self, key: &String) -> (present: bool)
        ensures
            final(self)@ == old(self)@.remove(key@),
            present == old(self)@.contains_key(key@),
    {
        let present = self.entries.contains_key(key.as_str());
        self.entries.remove(key.as_str());
        proof {
            assert(self@ =~= old(self)@.remove(key@));
        }
        present
    }

    /// Empties the cache.
    pub fn clear(&mut self)
        ensures
            final(self)@ == Map::<Seq<char>, Seq<u8>>::empty(),
    {
        self.entries.clear();
        proof {
            assert(self@ =~= Map::<Seq<char>, Seq<u8>>::empty());
        }
    }
}

/// What a lookup returns, as a function of the map state: the complete
/// stored byte sequence, or nothing. There is no third outcome, so no
/// read can observe a torn or partial value.
pub open spec fn lookup_model(m: Map<Seq<char>, Seq<u8>>, k: Seq<char>) -> Option<Seq<u8>> {
    if m.contains_key(k) {
        Some(m[k])
    } else {
        None
    }
}

} // verus!
