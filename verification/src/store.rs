//! The response cache as shared state: one `CacheMap` behind a verified
//! reader-writer lock, read by every request worker and mutated by misses
//! and by the operator console.
//!
//! The lock hands out whole cache values only — a reader sees a complete
//! map state, never a half-written one — and each mutation is a single
//! atomic map operation under the exclusive lock. The ghost snapshot each
//! method returns names the state(s) it observed, so callers can reason
//! about the result even though another thread may move the store on
//! immediately afterwards.

use vstd::prelude::*;
use vstd::rwlock::RwLock;
use vstd::rwlock::RwLockPredicate;
use crate::admin::AdminCommand;
use crate::admin::AdminOutcome;
use crate::admin::apply_command;
use crate::admin::apply_model;
use crate::admin::outcome_model;
use crate::cache::CacheMap;
use crate::cache::lookup_model;
use crate::dispatch::fill_model;
use crate::dispatch::miss_bytes_model;
use crate::dispatch::settle_miss;

verus! {

/// Every cache value may enter the lock; the map needs no side condition.
pub struct CacheInv {}

impl RwLockPredicate<CacheMap> for CacheInv {
    open spec fn inv(self, v: CacheMap) -> bool {
        true
    }
}

/// The shared, lock-guarded response cache.
pub struct CacheStore {
    state: RwLock<CacheMap, CacheInv>,
}

/// The bytes a lookup result carries.
pub open spec fn opt_bytes_model(o: Option<Vec<u8>>) -> Option<Seq<u8>> {
    match o {
        Some(v) => Some(v@),
        None => None,
    }
}

impl CacheStore {
    /// A store holding the empty cache.
    pub fn new() -> CacheStore {
        CacheStore { state: RwLock::new(CacheMap::new(), Ghost(CacheInv {})) }
    }

    /// The lock this store's state lives behind.
    pub closed spec fn lock_of(&self) -> RwLock<CacheMap, CacheInv> {
        self.state
    }

    /// Concurrent-safe read. The result is exactly what the observed cache
    /// state (the ghost snapshot) holds under `key`: either absent, or one
    /// complete previously stored value — the read lock admits no third,
    /// torn outcome. The snapshot is no free variable: it is witnessed by
    /// a read handle of this very lock, so it is a state a real read
    /// observed during the call. The critical section is one map read.
    pub fn lookup(&self, key: &String) -> (r: (Option<Vec<u8>>, Ghost<Map<Seq<char>, Seq<u8>>>))
        ensures
            opt_bytes_model(r.0) == lookup_model(r.1@, key@),
            exists|h: vstd::rwlock::ReadHandle<CacheMap, CacheInv>|
                #[trigger] h.rwlock() == self.lock_of() && h.view()@ == r.1@,
    {
        let read_handle = self.state.acquire_read();
        let cache = read_handle.borrow();
        let cached = cache.lookup(key);
        let ghost snap = cache@;
        let ghost witness = read_handle;
        read_handle.release_read();
        proof {
            assert(witness.rwlock() == self.lock_of() && witness.view()@ == snap);
        }
        (cached, Ghost(snap))
    }

    /// Settles a miss under the exclusive lock: stores the loaded bytes
    /// wholesale (a missing asset stores nothing) and returns the response.
    /// The ghost pair names the states just before and just after: the
    /// cache moves from the first to the second in one atomic step.
    pub fn settle_miss(&self, key: &String, loaded: Option<Vec<u8>>) -> (r: (
        Vec<u8>,
        Ghost<(Map<Seq<char>, Seq<u8>>, Map<Seq<char>, Seq<u8>>)>,
    ))
        ensures
            r.0@ == miss_bytes_model(loaded),
            r.1@.1 == fill_model(r.1@.0, key@, loaded),
    {
        let (mut cache, handle) = self.state.acquire_write();
        let ghost pre = cache@;
        let out = settle_miss(&mut cache, key, loaded);
        let ghost post = cache@;
        handle.release_write(cache);
        (out, Ghost((pre, post)))
    }

    /// Applies one console command under the exclusive lock — the console
    /// takes the same locking discipline as every request worker. The
    /// outcome reports against the state the command actually saw (the
    /// first ghost snapshot).
    pub fn apply(&self, cmd: AdminCommand) -> (r: (
        AdminOutcome,
        Ghost<(Map<Seq<char>, Seq<u8>>, Map<Seq<char>, Seq<u8>>)>,
    ))
        ensures
            r.1@.1 == apply_model(r.1@.0, cmd@),
            r.0@ == outcome_model(r.1@.0, cmd@),
    {
        let (mut cache, handle) = self.state.acquire_write();
        let ghost pre = cache@;
        let outcome = apply_command(&mut cache, cmd);
        let ghost post = cache@;
        handle.release_write(cache);
        (outcome, Ghost((pre, post)))
    }
}

/// Against any one cache state — and the read lock only ever shows one —
/// a lookup returns either "absent" or the complete stored byte sequence
/// under that key; there is no third outcome, so no reader observes a torn
/// or partial value however many readers race one writer.
pub proof fn lemma_lookup_untorn(m: Map<Seq<char>, Seq<u8>>, k: Seq<char>)
    ensures
        m.contains_key(k) ==> lookup_model(m, k) == Some(m[k]),
        !m.contains_key(k) ==> lookup_model(m, k) is None,
{
}

} // verus!
