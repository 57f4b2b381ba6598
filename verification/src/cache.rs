//! The handle through which the host owns the cache of compiled modules.
use vstd::prelude::*;
use owasm_vm::cache::{Cache, CacheOptions};

verus! {

/// The engine's in-memory cache of compiled modules. Nothing inside it is
/// visible here.
#[verifier::external_type_specification]
#[verifier::external_body]
pub struct ExCache(owasm_vm::cache::Cache);

/// The number of entries that a cache was made to hold at most.
pub uninterp spec fn cache_limit(cache: Cache) -> u32;

/// Calls `owasm_vm::cache::Cache::new` with `cache_size` set to `size`: the
/// cache that comes back was made for at most `size` entries. The room for
/// them is allocated at once; allocation is taken to succeed, as for any
/// container.
#[verifier::external_body]
fn new_cache(size: u32) -> (cache: Cache)
    ensures
        cache_limit(cache) == size,
{
    Cache::new(CacheOptions { cache_size: size })
}

/// An owned handle to a cache, or the null handle, which owns nothing.
/// The handle cannot be copied: whoever holds it owns the cache.
#[allow(non_camel_case_types)]
pub struct oracle_cache_t {
    slot: Option<Cache>,
}

impl oracle_cache_t {
    /// Whether this is the null handle.
    pub closed spec fn is_null(&self) -> bool {
        self.slot is None
    }

    /// The cache that a live handle owns.
    pub closed spec fn cache(&self) -> Cache
        recommends
            !self.is_null(),
    {
        self.slot->Some_0
    }

    /// The number of entries that the owned cache was made for.
    pub open spec fn limit(&self) -> u32
        recommends
            !self.is_null(),
    {
        cache_limit(self.cache())
    }

    /// The null handle.
    pub fn null() -> (h: oracle_cache_t)
        ensures
            h.is_null(),
    {
        oracle_cache_t { slot: None }
    }

    /// Whether the handle owns a cache.
    pub fn is_live(&self) -> (b: bool)
        ensures
            b == !self.is_null(),
    {
        self.slot.is_some()
    }
}

/// The cache behind a handle, to run against; nothing for the null handle.
/// What the borrower leaves in the cache is what the handle owns
/// afterwards, and a null handle stays null.
pub fn to_cache(ptr: &mut oracle_cache_t) -> (r: Option<&mut Cache>)
    ensures
        r is None <==> old(ptr).is_null(),
        final(ptr).is_null() == old(ptr).is_null(),
        r matches Some(c) ==> *c == old(ptr).cache() && *final(c) == final(ptr).cache(),
{
    ptr.slot.as_mut()
}

/// Makes a cache for at most `size` entries and hands out the handle that
/// owns it. The handle is never null.
pub fn oracle_init_cache(size: u32) -> (h: oracle_cache_t)
    ensures
        !h.is_null(),
        h.limit() == size,
{
    oracle_cache_t { slot: Some(new_cache(size)) }
}

/// Frees the cache that the handle owns and leaves the handle null.
/// Releasing the null handle does nothing.
pub fn oracle_release_cache(cache: &mut oracle_cache_t)
    ensures
        final(cache).is_null(),
{
    cache.slot = None;
}

} // verus!
