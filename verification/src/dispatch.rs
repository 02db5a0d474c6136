//! Per-request logic: derive the cache key from the request target, route
//! reserved "service" paths to the bridge, and serve everything else from
//! the cache, filling it on a miss.

use vstd::prelude::*;
use vstd::string::StrSliceExecFns;
use vstd::string::StringExecFns;
use crate::cache::CacheMap;
use crate::cache::lookup_model;

verus! {

/// The request target as handed over by the request engine: the
/// absolute-path form carries the path; every other URI form maps to the
/// root path.
pub enum RequestTarget {
    AbsolutePath(String),
    Other,
}

/// Derives the cache key from the request target: the absolute path
/// verbatim, or `"/"` for any other form.
pub fn unpack(target: &RequestTarget) -> (key: String)
    ensures
        match target {
            RequestTarget::AbsolutePath(p) => key@ == p@,
            RequestTarget::Other => key@ == "/"@,
        },
{
    match target {
        RequestTarget::AbsolutePath(p) => p.clone(),
        RequestTarget::Other => String::from_str("/"),
    }
}

/// `needle` occurs in `hay` starting at position `i`.
pub open spec fn occurs_at(hay: Seq<char>, needle: Seq<char>, i: int) -> bool {
    0 <= i && i + needle.len() <= hay.len() && hay.subrange(i, i + needle.len()) == needle
}

/// `needle` occurs somewhere in `hay`.
pub open spec fn has_substring(hay: Seq<char>, needle: Seq<char>) -> bool {
    exists|i: int| occurs_at(hay, needle, i)
}

/// The reserved marker that routes a request to the sidecar bridge.
pub open spec fn service_marker() -> Seq<char> {
    "service"@
}

/// Whether `key` contains the reserved marker `"service"` anywhere, which
/// routes the request to the bridge instead of the cache.
pub fn is_service_key(key: &String) -> (r: bool)
    ensures
        r == has_substring(key@, service_marker()),
{
    let needle = "service";
    proof {
        reveal_strlit("service");
    }
    let n = key.as_str().unicode_len();
    let m = needle.unicode_len();
    if m > n {
        proof {
            assert(forall|i: int| !occurs_at(key@, service_marker(), i));
        }
        return false;
    }
    let mut i: usize = 0;
    while i <= n - m
        invariant
            needle@ == service_marker(),
            m == service_marker().len(),
            n == key@.len(),
            m <= n,
            i <= n,
            forall|j: int| 0 <= j < i ==> !occurs_at(key@, service_marker(), j),
        decreases n - i,
    {
        let mut j: usize = 0;
        while j < m && key.as_str().get_char(i + j) == needle.get_char(j)
            invariant
                needle@ == service_marker(),
                m == service_marker().len(),
                n == key@.len(),
                i + m <= n,
                j <= m,
                forall|t: int| 0 <= t < j ==> key@[i + t] == service_marker()[t],
            decreases m - j,
        {
            j = j + 1;
        }
        if j == m {
            proof {
                assert(key@.subrange(i as int, i + m) =~= service_marker());
                assert(occurs_at(key@, service_marker(), i as int));
            }
            return true;
        }
        proof {
            assert(key@[i + j] != service_marker()[j as int]);
            assert forall|p: int| p == i implies !occurs_at(key@, service_marker(), p) by {
                if occurs_at(key@, service_marker(), p) {
                    assert(key@.subrange(p, p + service_marker().len())[j as int] == key@[i + j]);
                }
            }
        }
        i = i + 1;
    }
    proof {
        assert forall|j: int| !occurs_at(key@, service_marker(), j) by {
            if occurs_at(key@, service_marker(), j) {
                assert(j + m <= n);
                assert(j < i);
            }
        }
    }
    false
}

/// The fixed reply for a reserved-path request when no bridge is
/// configured: the ASCII bytes of `"undefined"`.
pub open spec fn undefined_model() -> Seq<u8> {
    seq![117u8, 110u8, 100u8, 101u8, 102u8, 105u8, 110u8, 101u8, 100u8]
}

/// The fixed reply for a missing asset: the ASCII bytes of `"Not Found"`.
/// A miss is never cached.
pub open spec fn not_found_model() -> Seq<u8> {
    seq![78u8, 111u8, 116u8, 32u8, 70u8, 111u8, 117u8, 110u8, 100u8]
}

/// The bytes of `"undefined"`.
pub fn undefined_sentinel() -> (r: Vec<u8>)
    ensures
        r@ == undefined_model(),
{
    let mut v: Vec<u8> = Vec::new();
    v.push(117u8);
    v.push(110u8);
    v.push(100u8);
    v.push(101u8);
    v.push(102u8);
    v.push(105u8);
    v.push(110u8);
    v.push(101u8);
    v.push(100u8);
    proof {
        assert(v@ =~= undefined_model());
    }
    v
}

/// The bytes of `"Not Found"`.
pub fn not_found_sentinel() -> (r: Vec<u8>)
    ensures
        r@ == not_found_model(),
{
    let mut v: Vec<u8> = Vec::new();
    v.push(78u8);
    v.push(111u8);
    v.push(116u8);
    v.push(32u8);
    v.push(70u8);
    v.push(111u8);
    v.push(117u8);
    v.push(110u8);
    v.push(100u8);
    proof {
        assert(v@ =~= not_found_model());
    }
    v
}

/// Reply for a reserved-path request: the bridge's response verbatim when
/// one came back, else the fixed `"undefined"` sentinel (no bridge was
/// configured, so the call was never made).
pub fn service_response(reply: Option<Vec<u8>>) -> (r: Vec<u8>)
    ensures
        match reply {
            Some(b) => r@ == b@,
            None => r@ == undefined_model(),
        },
{
    match reply {
        Some(b) => b,
        None => undefined_sentinel(),
    }
}

/// Whether serving `k` against cache state `m` requires a read of the
/// asset store: exactly on a miss.
pub open spec fn needs_asset_read(m: Map<Seq<char>, Seq<u8>>, k: Seq<char>) -> bool {
    !m.contains_key(k)
}

/// The cache state after a miss on `k` is settled with what the asset
/// store returned: filled on success, unchanged on a missing asset.
pub open spec fn fill_model(
    m: Map<Seq<char>, Seq<u8>>,
    k: Seq<char>,
    loaded: Option<Vec<u8>>,
) -> Map<Seq<char>, Seq<u8>> {
    match loaded {
        Some(d) => m.insert(k, d@),
        None => m,
    }
}

/// The response bytes after a miss: the loaded asset verbatim, or the
/// `"Not Found"` sentinel.
pub open spec fn miss_bytes_model(loaded: Option<Vec<u8>>) -> Seq<u8> {
    match loaded {
        Some(d) => d@,
        None => not_found_model(),
    }
}

/// Settles a cache miss on `key`. `loaded` is what the asset store
/// returned for the key: on success the bytes are stored wholesale under
/// `key` and returned; on a missing asset nothing is cached and the
/// `"Not Found"` sentinel is returned.
pub fn settle_miss(cache: &mut CacheMap, key: &String, loaded: Option<Vec<u8>>) -> (r: Vec<u8>)
    ensures
        final(cache)@ == fill_model(old(cache)@, key@, loaded),
        r@ == miss_bytes_model(loaded),
{
    match loaded {
        Some(data) => {
            let out = crate::cache::copy_bytes(&data);
            cache.insert(key.clone(), data);
            out
        },
        None => not_found_sentinel(),
    }
}

/// The underlying asset is read at most once per distinct key under
/// single-threaded access: once a miss on `k` has been settled with bytes
/// `d`, the key is cached, a later lookup of `k` returns exactly `d`, and
/// serving `k` again needs no asset read — until `k` is removed or the
/// cache is cleared. Every other key is untouched by the fill.
pub proof fn lemma_fill_once(m: Map<Seq<char>, Seq<u8>>, k: Seq<char>, d: Seq<u8>)
    ensures
        lookup_model(m.insert(k, d), k) == Some(d),
        !needs_asset_read(m.insert(k, d), k),
        forall|k2: Seq<char>| k2 != k ==> lookup_model(m.insert(k, d), k2) == lookup_model(m, k2),
{
}

} // verus!
