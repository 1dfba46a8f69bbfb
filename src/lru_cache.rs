//! The bounded least-recently-used caches of the `lru` crate, as the scoring
//! cache uses them.
use vstd::prelude::*;
use lru::LruCache;
use crate::cache_entry::CacheEntry;

verus! {

#[verifier::external_type_specification]
#[verifier::external_body]
#[verifier::reject_recursive_types(K)]
#[verifier::reject_recursive_types(V)]
#[verifier::reject_recursive_types(S)]
pub struct ExLruCache<K, V, S>(LruCache<K, V, S>);

#[verifier::external_type_specification]
#[verifier::external_body]
pub struct ExLruHasher(lru::DefaultHasher);

/// What a per-viewer cache holds, by (viewer, post) key.
pub uninterp spec fn user_cache_contents(c: LruCache<(u64, u64), CacheEntry>) -> Map<(u64, u64), CacheEntry>;

/// The number of entries a per-viewer cache was made to hold.
pub uninterp spec fn user_cache_capacity(c: LruCache<(u64, u64), CacheEntry>) -> nat;

/// What a per-post cache holds, by post key.
pub uninterp spec fn post_cache_contents(c: LruCache<u64, CacheEntry>) -> Map<u64, CacheEntry>;

/// The number of entries a per-post cache was made to hold.
pub uninterp spec fn post_cache_capacity(c: LruCache<u64, CacheEntry>) -> nat;

/// Relies on `LruCache::new`: an empty cache that holds at most `cap` entries.
#[verifier::external_body]
pub fn new_user_cache(cap: usize) -> (r: LruCache<(u64, u64), CacheEntry>)
    requires
        cap > 0,
    ensures
        user_cache_contents(r).dom() == Set::<(u64, u64)>::empty(),
        user_cache_capacity(r) == cap,
{
    LruCache::new(std::num::NonZeroUsize::new(cap).unwrap())
}

/// Relies on `LruCache::new`: an empty cache that holds at most `cap` entries.
#[verifier::external_body]
pub fn new_post_cache(cap: usize) -> (r: LruCache<u64, CacheEntry>)
    requires
        cap > 0,
    ensures
        post_cache_contents(r).dom() == Set::<u64>::empty(),
        post_cache_capacity(r) == cap,
{
    LruCache::new(std::num::NonZeroUsize::new(cap).unwrap())
}

/// Relies on `LruCache::get`: the entry under `key`, if any. The lookup only
/// marks the entry as recently used; the contents stay as they are.
#[verifier::external_body]
pub fn user_cache_get(c: &mut LruCache<(u64, u64), CacheEntry>, key: (u64, u64)) -> (r: Option<CacheEntry>)
    ensures
        user_cache_contents(*final(c)) == user_cache_contents(*old(c)),
        user_cache_capacity(*final(c)) == user_cache_capacity(*old(c)),
        r == (if user_cache_contents(*old(c)).contains_key(key) {
            Some(user_cache_contents(*old(c))[key])
        } else {
            None
        }),
{
    c.get(&key).copied()
}

/// Relies on `LruCache::put`: `key` then maps to `entry`. An existing key is
/// updated in place; a new key is added, and when the cache is full the least
/// recently used other entry is dropped to make room. The entries live in a
/// hash map, so there are finitely many.
#[verifier::external_body]
pub fn user_cache_put(c: &mut LruCache<(u64, u64), CacheEntry>, key: (u64, u64), entry: CacheEntry)
    ensures
        user_cache_capacity(*final(c)) == user_cache_capacity(*old(c)),
        user_cache_contents(*final(c)).dom().finite(),
        user_cache_contents(*final(c)).contains_key(key),
        user_cache_contents(*final(c))[key] == entry,
        forall|k: (u64, u64)|
            k != key && #[trigger] user_cache_contents(*final(c)).contains_key(k) ==> user_cache_contents(
                *old(c),
            ).contains_key(k) && user_cache_contents(*final(c))[k] == user_cache_contents(*old(c))[k],
        user_cache_contents(*old(c)).contains_key(key) || user_cache_contents(*old(c)).len()
            < user_cache_capacity(*old(c)) ==> user_cache_contents(*final(c))
            == user_cache_contents(*old(c)).insert(key, entry),
{
    let _ = c.put(key, entry);
}

/// Relies on `LruCache::pop`: removes the entry under `key` and returns it.
#[verifier::external_body]
pub fn user_cache_pop(c: &mut LruCache<(u64, u64), CacheEntry>, key: (u64, u64)) -> (r: Option<CacheEntry>)
    ensures
        user_cache_contents(*final(c)) == user_cache_contents(*old(c)).remove(key),
        user_cache_capacity(*final(c)) == user_cache_capacity(*old(c)),
        r == (if user_cache_contents(*old(c)).contains_key(key) {
            Some(user_cache_contents(*old(c))[key])
        } else {
            None
        }),
{
    c.pop(&key)
}

/// Relies on `LruCache::clear`: removes every entry.
#[verifier::external_body]
pub fn user_cache_clear(c: &mut LruCache<(u64, u64), CacheEntry>)
    ensures
        user_cache_contents(*final(c)).dom() == Set::<(u64, u64)>::empty(),
        user_cache_capacity(*final(c)) == user_cache_capacity(*old(c)),
{
    c.clear()
}

/// Relies on `LruCache::clear`: removes every entry.
#[verifier::external_body]
pub fn post_cache_clear(c: &mut LruCache<u64, CacheEntry>)
    ensures
        post_cache_contents(*final(c)).dom() == Set::<u64>::empty(),
        post_cache_capacity(*final(c)) == post_cache_capacity(*old(c)),
{
    c.clear()
}

} // verus!
