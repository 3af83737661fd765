//! The request orchestration: whitelist gate, then key, then cache lookup;
//! on a miss the caller fetches the source bytes and hands them back to the
//! transform-and-cache phase. The network itself stays outside this library.
use vstd::prelude::*;

use crate::cache::{contents_within, map_weight, WeightedCache};
use crate::error::Error;
use crate::guard::{allowed_host, host_allowed};
use crate::keys::{get_saved_image, spec_key, Dimension};
use crate::ops::{get_operations, spec_operations, spec_transform, transform, ImageOptions};

verus! {

/// A fixed acknowledgement body returned by endpoints that serve no bytes.
#[derive(Clone, Debug)]
pub struct ApiMessage {
    pub message: String,
}

/// Everything a request handler needs: the immutable whitelist and the
/// shared weighted cache.
pub struct ApiState {
    pub whitelist: Vec<String>,
    pub cache: WeightedCache,
}

/// The cache key a request maps to.
pub open spec fn request_key(url: Seq<char>, opts: ImageOptions) -> Seq<char> {
    spec_key(url, Dimension(opts.width, opts.height), opts.format)
}

/// The hit phase of serving a request: the whitelist gate runs first and a
/// rejected host fails with `HostNotAllowed` before anything else happens;
/// for an allowed host the cache is consulted under the request's canonical
/// key. `Ok(Some)` returns exactly the cached bytes; `Ok(None)` means the
/// caller must fetch and complete the miss.
pub fn lookup_cached(state: &mut ApiState, url: &str, opts: &ImageOptions) -> (r: Result<
    Option<Vec<u8>>,
    Error,
>)
    requires
        old(state).cache.wf(),
    ensures
        final(state).whitelist == old(state).whitelist,
        final(state).cache.capacity() == old(state).cache.capacity(),
        final(state).cache.wf(),
        contents_within(final(state).cache.contents(), old(state).cache.contents()),
        map_weight(old(state).cache.contents()) <= old(state).cache.capacity()
            ==> final(state).cache.contents() == old(state).cache.contents(),
        r is Err <==> !host_allowed(url@, old(state).whitelist@),
        match r {
            Err(e) => e == Error::HostNotAllowed && final(state).cache.contents()
                == old(state).cache.contents(),
            Ok(hit) => match hit {
                Some(v) => old(state).cache.contents().contains_key(request_key(url@, *opts))
                    && v@ == old(state).cache.contents()[request_key(url@, *opts)],
                None => !final(state).cache.contents().contains_key(request_key(url@, *opts)),
            },
        },
{
    let allowed = allowed_host(url, &state.whitelist);
    match allowed {
        Err(e) => Err(e),
        Ok(()) => {
            let img = get_saved_image(url, opts.width, opts.height, opts.format);
            let key = img.to_string();
            Ok(state.cache.get(&key))
        },
    }
}

/// The miss phase, once the source bytes are in hand: build the request's
/// operations, run the transform pipeline, and cache a successful result
/// under the request's canonical key. A failed transform returns its error
/// and never populates the cache.
pub fn process_fetched(
    cache: &mut WeightedCache,
    url: &str,
    opts: &ImageOptions,
    fetched: Vec<u8>,
) -> (r: Result<Vec<u8>, Error>)
    requires
        old(cache).wf(),
    ensures
        final(cache).capacity() == old(cache).capacity(),
        final(cache).wf(),
        match r {
            Ok(v) => Ok::<Seq<u8>, Error>(v@) == spec_transform(
                fetched@,
                spec_operations(opts.format, opts.width, opts.height),
            ) && contents_within(
                final(cache).contents(),
                old(cache).contents().insert(request_key(url@, *opts), v@),
            ) && (old(cache).capacity() > 0 && map_weight(
                old(cache).contents().insert(request_key(url@, *opts), v@),
            ) <= old(cache).capacity() ==> final(cache).contents()
                == old(cache).contents().insert(request_key(url@, *opts), v@)),
            Err(e) => Err::<Seq<u8>, Error>(e) == spec_transform(
                fetched@,
                spec_operations(opts.format, opts.width, opts.height),
            ) && final(cache).contents() == old(cache).contents(),
        },
{
    let operations = get_operations(opts);
    let data = transform(&fetched, &operations);
    match data {
        Ok(out) => {
            let img = get_saved_image(url, opts.width, opts.height, opts.format);
            let key = img.to_string();
            cache.insert(key, out.clone());
            Ok(out)
        },
        Err(e) => Err(e),
    }
}

/// Miss, then hit: once a miss has been completed — the transformed bytes
/// cached under the request's key, within capacity — that key is retained
/// with exactly those bytes. The key builder is deterministic, so a second
/// identical request derives the same key and is served from the cache,
/// with no further fetch or transform.
pub proof fn lemma_miss_then_hit(
    m: Map<Seq<char>, Seq<u8>>,
    url: Seq<char>,
    opts: ImageOptions,
    v: Seq<u8>,
)
    ensures
        m.insert(request_key(url, opts), v).contains_key(request_key(url, opts)),
        m.insert(request_key(url, opts), v)[request_key(url, opts)] == v,
{
}

/// A byte count, reported by the stats endpoint in mebibytes.
#[derive(Clone, Copy, Debug)]
pub struct Bytes(pub u64);

impl Bytes {
    /// This count in whole mebibytes, rounded down.
    pub fn as_mib(self) -> (r: u64)
        ensures
            r == self.0 as nat / (1024 * 1024),
    {
        self.0 / (1024 * 1024)
    }
}

/// The numbers the stats endpoint reports: the summed byte weight of the
/// retained entries — within the configured capacity — and how many entries
/// there are, both after forcing pending maintenance to run.
pub fn stats_snapshot(cache: &mut WeightedCache) -> (r: (Bytes, u64))
    ensures
        final(cache).capacity() == old(cache).capacity(),
        final(cache).wf(),
        contents_within(final(cache).contents(), old(cache).contents()),
        (r.0).0 as nat == map_weight(final(cache).contents()),
        (r.0).0 <= final(cache).capacity(),
        r.1 as nat == final(cache).contents().dom().len(),
{
    let weight = cache.weighted_size();
    let entries = cache.entry_count();
    (Bytes(weight), entries)
}

} // verus!
