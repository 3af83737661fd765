//! The weighted cache: a concurrent, capacity-bounded key-to-bytes store
//! whose eviction is driven by total occupied byte weight. The store itself
//! is moka's synchronous cache; this module gives it a mathematical contents
//! model and a verified interface.
use vstd::prelude::*;

verus! {

/// Declares moka's `sync::Cache` so it can stand in fields and signatures;
/// its values stay opaque, described only by the two names below.
#[verifier::external_type_specification]
#[verifier::external_body]
#[verifier::reject_recursive_types(K)]
#[verifier::reject_recursive_types(V)]
#[verifier::reject_recursive_types(S)]
pub struct ExMokaCache<K, V, S>(moka::sync::Cache<K, V, S>);

/// What the store currently retains: its key-to-bytes map. Entries appear on
/// insert and can disappear whenever maintenance evicts them.
pub uninterp spec fn cache_contents(c: moka::sync::Cache<String, Vec<u8>>) -> Map<Seq<char>, Seq<u8>>;

/// The maximum total weight the store was built with.
pub uninterp spec fn cache_capacity(c: moka::sync::Cache<String, Vec<u8>>) -> u64;

/// The contents of a cache that retains nothing.
pub open spec fn empty_contents() -> Map<Seq<char>, Seq<u8>> {
    Map::empty()
}

/// The weight of one cached value: its byte length, saturated at the
/// weigher's `u32` range.
pub open spec fn entry_weight(v: Seq<u8>) -> nat {
    if v.len() > u32::MAX as nat {
        u32::MAX as nat
    } else {
        v.len()
    }
}

/// The summed weight of every entry a contents map retains.
pub open spec fn map_weight(m: Map<Seq<char>, Seq<u8>>) -> nat
    decreases m.dom().len(),
    when m.dom().finite()
{
    if m.dom().len() > 0 {
        let k = m.dom().choose();
        entry_weight(m[k]) + map_weight(m.remove(k))
    } else {
        0
    }
}

/// Whether `m1` retains only entries of `m2`, each with the same bytes:
/// what eviction may leave behind.
pub open spec fn contents_within(m1: Map<Seq<char>, Seq<u8>>, m2: Map<Seq<char>, Seq<u8>>) -> bool {
    forall|k: Seq<char>|
        m1.contains_key(k) ==> #[trigger] m2.contains_key(k) && m1[k] == m2[k]
}

/// Returns the weigher's weight of one value.
pub fn byte_weight(v: &Vec<u8>) -> (r: u32)
    ensures
        r as nat == entry_weight(v@),
{
    if v.len() > u32::MAX as usize {
        u32::MAX
    } else {
        v.len() as u32
    }
}

/// Relies on moka's `Cache::builder` with `max_capacity` and a `weigher`
/// that reports each value's byte length: a freshly built cache retains
/// nothing, and its configured capacity is the one given.
#[verifier::external_body]
fn moka_build(capacity: u64) -> (c: moka::sync::Cache<String, Vec<u8>>)
    ensures
        cache_contents(c) == empty_contents(),
        cache_contents(c).dom().finite(),
        cache_capacity(c) == capacity,
{
    moka::sync::Cache::builder().weigher(|_key: &String, value: &Vec<u8>| byte_weight(value))
        .max_capacity(capacity)
        .build()
}

/// Relies on moka's `Cache::get`: it returns a clone of the retained value
/// for the key, or nothing. A read records itself and can run pending
/// maintenance inline — when the read buffer fills or the periodic sync is
/// due — so the contents are only conditionally preserved: maintenance
/// only ever evicts entries, and evicts none while the retained weight is
/// within capacity (this cache has no expiry and no eviction listener).
#[verifier::external_body]
fn moka_get(c: &mut moka::sync::Cache<String, Vec<u8>>, key: &String) -> (r: Option<Vec<u8>>)
    ensures
        cache_capacity(*final(c)) == cache_capacity(*old(c)),
        cache_contents(*final(c)).dom().finite(),
        contents_within(cache_contents(*final(c)), cache_contents(*old(c))),
        map_weight(cache_contents(*old(c))) <= cache_capacity(*old(c)) ==> cache_contents(
            *final(c),
        ) == cache_contents(*old(c)),
        match r {
            Some(v) => cache_contents(*old(c)).contains_key(key@) && v@ == cache_contents(
                *old(c),
            )[key@],
            None => !cache_contents(*final(c)).contains_key(key@),
        },
{
    c.get(key)
}

/// Relies on moka's `Cache::insert`: on a cache of positive capacity the
/// entry is in the map when the call returns — an existing value under the
/// same key is overwritten — and inline maintenance evicts nothing as long
/// as the total weight stays within capacity (no expiry, no eviction
/// listener). Under weight pressure the call still retains at most the old
/// entries plus the new one. At capacity zero moka disables the map
/// entirely: the insert is a no-op, covered by the sub-map clause alone.
#[verifier::external_body]
fn moka_insert(c: &mut moka::sync::Cache<String, Vec<u8>>, key: String, value: Vec<u8>)
    ensures
        cache_capacity(*final(c)) == cache_capacity(*old(c)),
        cache_contents(*final(c)).dom().finite(),
        contents_within(
            cache_contents(*final(c)),
            cache_contents(*old(c)).insert(key@, value@),
        ),
        cache_capacity(*old(c)) > 0 && map_weight(cache_contents(*old(c)).insert(key@, value@))
            <= cache_capacity(*old(c)) ==> cache_contents(*final(c)) == cache_contents(
            *old(c),
        ).insert(key@, value@),
{
    c.insert(key, value)
}

/// Relies on moka's `Cache::run_pending_tasks`: with no eviction listener
/// configured a single run completes every pending eviction, so afterwards
/// the retained weight is within the configured capacity. Maintenance only
/// ever evicts: it retains a sub-map of what was there.
#[verifier::external_body]
fn moka_run_pending(c: &mut moka::sync::Cache<String, Vec<u8>>)
    ensures
        cache_capacity(*final(c)) == cache_capacity(*old(c)),
        cache_contents(*final(c)).dom().finite(),
        contents_within(cache_contents(*final(c)), cache_contents(*old(c))),
        map_weight(cache_contents(*old(c))) <= cache_capacity(*old(c)) ==> cache_contents(
            *final(c),
        ) == cache_contents(*old(c)),
        map_weight(cache_contents(*final(c))) <= cache_capacity(*final(c)),
{
    c.run_pending_tasks()
}

/// Relies on moka's `Cache::entry_count`, called right after
/// `Cache::run_pending_tasks` on the same handle: once maintenance has run,
/// the estimate is the actual number of retained entries.
#[verifier::external_body]
fn moka_entry_count_synced(c: &mut moka::sync::Cache<String, Vec<u8>>) -> (r: u64)
    ensures
        cache_capacity(*final(c)) == cache_capacity(*old(c)),
        cache_contents(*final(c)).dom().finite(),
        contents_within(cache_contents(*final(c)), cache_contents(*old(c))),
        map_weight(cache_contents(*old(c))) <= cache_capacity(*old(c)) ==> cache_contents(
            *final(c),
        ) == cache_contents(*old(c)),
        map_weight(cache_contents(*final(c))) <= cache_capacity(*final(c)),
        r as nat == cache_contents(*final(c)).dom().len(),
{
    c.run_pending_tasks();
    c.entry_count()
}

/// Relies on moka's `Cache::weighted_size`, called right after
/// `Cache::run_pending_tasks` on the same handle: once maintenance has run,
/// the estimate is the actual summed weight of the retained entries.
#[verifier::external_body]
fn moka_weighted_size_synced(c: &mut moka::sync::Cache<String, Vec<u8>>) -> (r: u64)
    ensures
        cache_capacity(*final(c)) == cache_capacity(*old(c)),
        cache_contents(*final(c)).dom().finite(),
        contents_within(cache_contents(*final(c)), cache_contents(*old(c))),
        map_weight(cache_contents(*old(c))) <= cache_capacity(*old(c)) ==> cache_contents(
            *final(c),
        ) == cache_contents(*old(c)),
        map_weight(cache_contents(*final(c))) <= cache_capacity(*final(c)),
        r as nat == map_weight(cache_contents(*final(c))),
{
    c.run_pending_tasks();
    c.weighted_size()
}

/// The capacity-bounded key-to-bytes store used by the service.
pub struct WeightedCache {
    inner: moka::sync::Cache<String, Vec<u8>>,
}

impl WeightedCache {
    /// What the cache currently retains.
    pub closed spec fn contents(&self) -> Map<Seq<char>, Seq<u8>> {
        cache_contents(self.inner)
    }

    /// The maximum total weight configured at construction.
    pub closed spec fn capacity(&self) -> u64 {
        cache_capacity(self.inner)
    }

    /// The contents map is always finite.
    pub closed spec fn wf(&self) -> bool {
        self.contents().dom().finite()
    }

    /// Builds an empty cache bounded by `capacity` total bytes.
    pub fn with_capacity(capacity: u64) -> (r: WeightedCache)
        ensures
            r.contents() == empty_contents(),
            r.capacity() == capacity,
            r.wf(),
    {
        WeightedCache { inner: moka_build(capacity) }
    }

    /// Looks up the bytes cached under `key`. A hit returns exactly the
    /// retained bytes; a miss means the key is not retained. The lookup
    /// never adds entries, and removes none while the retained weight is
    /// within capacity.
    pub fn get(&mut self, key: &String) -> (r: Option<Vec<u8>>)
        ensures
            final(self).capacity() == old(self).capacity(),
            final(self).wf(),
            contents_within(final(self).contents(), old(self).contents()),
            map_weight(old(self).contents()) <= old(self).capacity() ==> final(self).contents()
                == old(self).contents(),
            match r {
                Some(v) => old(self).contents().contains_key(key@) && v@ == old(
                    self,
                ).contents()[key@],
                None => !final(self).contents().contains_key(key@),
            },
    {
        moka_get(&mut self.inner, key)
    }

    /// Caches `value` under `key`, overwriting any previous value. On a
    /// cache of positive capacity the entry is retained when the call
    /// returns; while the resulting total weight is within capacity nothing
    /// else changes, and under weight pressure eviction may later trim
    /// entries (never adding any). A zero-capacity cache retains nothing.
    pub fn insert(&mut self, key: String, value: Vec<u8>)
        ensures
            final(self).capacity() == old(self).capacity(),
            final(self).wf(),
            contents_within(
                final(self).contents(),
                old(self).contents().insert(key@, value@),
            ),
            old(self).capacity() > 0 && map_weight(old(self).contents().insert(key@, value@))
                <= old(self).capacity() ==> final(self).contents() == old(
                self,
            ).contents().insert(key@, value@),
    {
        moka_insert(&mut self.inner, key, value)
    }

    /// Forces all pending maintenance to run. Afterwards the summed weight
    /// of every retained entry is within the configured capacity — the
    /// capacity bound of the weighted cache.
    pub fn run_pending_tasks(&mut self)
        ensures
            final(self).capacity() == old(self).capacity(),
            final(self).wf(),
            contents_within(final(self).contents(), old(self).contents()),
            map_weight(old(self).contents()) <= old(self).capacity() ==> final(self).contents()
                == old(self).contents(),
            map_weight(final(self).contents()) <= final(self).capacity(),
    {
        moka_run_pending(&mut self.inner)
    }

    /// The number of retained entries, after forcing pending maintenance.
    pub fn entry_count(&mut self) -> (r: u64)
        ensures
            final(self).capacity() == old(self).capacity(),
            final(self).wf(),
            contents_within(final(self).contents(), old(self).contents()),
            map_weight(old(self).contents()) <= old(self).capacity() ==> final(self).contents()
                == old(self).contents(),
            map_weight(final(self).contents()) <= final(self).capacity(),
            r as nat == final(self).contents().dom().len(),
    {
        moka_entry_count_synced(&mut self.inner)
    }

    /// The summed weight of the retained entries, after forcing pending
    /// maintenance; by the capacity bound it never exceeds the configured
    /// capacity.
    pub fn weighted_size(&mut self) -> (r: u64)
        ensures
            final(self).capacity() == old(self).capacity(),
            final(self).wf(),
            contents_within(final(self).contents(), old(self).contents()),
            map_weight(old(self).contents()) <= old(self).capacity() ==> final(self).contents()
                == old(self).contents(),
            map_weight(final(self).contents()) <= final(self).capacity(),
            r as nat == map_weight(final(self).contents()),
            r <= final(self).capacity(),
    {
        moka_weighted_size_synced(&mut self.inner)
    }
}

/// Builds the cache the service uses, bounded by the configured capacity.
pub fn new(c: &crate::config::CacheConfig) -> (r: WeightedCache)
    ensures
        r.contents() == empty_contents(),
        r.capacity() == c.capacity,
        r.wf(),
{
    WeightedCache::with_capacity(c.capacity)
}

/// The cache round trip: a map that has just had `v` inserted under `k`
/// retains exactly `v` under `k`, and retains another key exactly when it
/// was retained before — so a fresh cache misses every key, and on a cache
/// of positive capacity an insert that stays within the capacity is
/// observed by the next lookup.
pub proof fn lemma_cache_round_trip(
    m: Map<Seq<char>, Seq<u8>>,
    k: Seq<char>,
    v: Seq<u8>,
    other: Seq<char>,
)
    requires
        other != k,
    ensures
        m.insert(k, v).contains_key(k),
        m.insert(k, v)[k] == v,
        m.insert(k, v).contains_key(other) == m.contains_key(other),
        !empty_contents().contains_key(other),
        !empty_contents().contains_key(k),
{
}

} // verus!
