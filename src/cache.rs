use fnv::{FnvHashMap, FnvHasher};
use std::hash::BuildHasherDefault;
use std::sync::Arc;
use vstd::prelude::*;

verus! {

/// `fnv::FnvHasher`, the hasher of the cache tables, carried opaquely.
#[verifier::external_type_specification]
#[verifier::external_body]
pub struct ExFnvHasher(FnvHasher);

/// `std::hash::BuildHasherDefault`, through which `fnv::FnvHashMap` builds its
/// hashers, carried opaquely.
#[verifier::external_type_specification]
#[verifier::external_body]
#[verifier::reject_recursive_types(H)]
pub struct ExBuildHasherDefault<H>(BuildHasherDefault<H>);

/// A pixel format of a render target, identified by its code.
#[derive(Clone, Copy, Debug, PartialEq, Eq, Structural)]
pub struct TextureFormat(pub u32);

/// Table key of a pipeline: (multisample count, pixel format code).
pub type CacheKey = (u32, u32);

/// The table key of a configuration.
pub open spec fn key_of(msaa_sample_count: u32, format: TextureFormat) -> CacheKey {
    (msaa_sample_count, format.0)
}

/// What one request for `key` does to a cache holding `before`, where
/// `built` says which results a construction for `key` may give: a cached
/// handle is returned as it is and nothing is constructed; otherwise the
/// result is one that a construction gave, and only a success is added to the
/// cache, under `key` alone.
pub open spec fn cache_outcome<H, E>(
    before: Map<CacheKey, Arc<H>>,
    key: CacheKey,
    built: spec_fn(Result<H, E>) -> bool,
    r: Result<Arc<H>, E>,
    after: Map<CacheKey, Arc<H>>,
) -> bool {
    if before.contains_key(key) {
        r == Ok::<Arc<H>, E>(before[key]) && after == before
    } else {
        match r {
            Ok(h) => built(Ok::<H, E>(*h)) && after == before.insert(key, h),
            Err(e) => built(Err::<H, E>(e)) && after == before,
        }
    }
}

/// An outcome stays an outcome when more construction results are allowed.
pub proof fn lemma_outcome_weaken<H, E>(
    before: Map<CacheKey, Arc<H>>,
    key: CacheKey,
    built: spec_fn(Result<H, E>) -> bool,
    allowed: spec_fn(Result<H, E>) -> bool,
    r: Result<Arc<H>, E>,
    after: Map<CacheKey, Arc<H>>,
)
    requires
        cache_outcome(before, key, built, r, after),
        forall|x: Result<H, E>| #[trigger] built(x) ==> allowed(x),
    ensures
        cache_outcome(before, key, allowed, r, after),
{
}

/// Relies on `HashMap::get` (with the FNV hasher): the handle stored under `key`, if any.
/// The map's specification in vstd holds only for hashers it knows to be
/// deterministic; FNV hashing is a fixed function of the bytes hashed, so the
/// map behaves as a map here too. The same holds of the two wrappers below.
#[verifier::external_body]
fn table_get<'a, H>(table: &'a FnvHashMap<CacheKey, Arc<H>>, key: &CacheKey) -> (r: Option<&'a Arc<H>>)
    ensures
        match r {
            Some(h) => table@.contains_key(*key) && table@[*key] == *h,
            None => !table@.contains_key(*key),
        },
{
    table.get(key)
}

/// Relies on `HashMap::insert` (with the FNV hasher): stores `value` under `key`.
#[verifier::external_body]
fn table_insert<H>(table: &mut FnvHashMap<CacheKey, Arc<H>>, key: CacheKey, value: Arc<H>)
    ensures
        final(table)@ == old(table)@.insert(key, value),
{
    table.insert(key, value);
}

/// Relies on `HashMap::len` (with the FNV hasher): the number of keys stored.
#[verifier::external_body]
fn table_len<H>(table: &FnvHashMap<CacheKey, Arc<H>>) -> (r: usize)
    ensures
        r == table@.len(),
{
    table.len()
}

/// A memo table from render target configuration to a shared pipeline handle.
/// Entries are written once and never replaced or evicted.
pub struct PipelineCache<H> {
    table: FnvHashMap<CacheKey, Arc<H>>,
}

impl<H> View for PipelineCache<H> {
    type V = Map<CacheKey, Arc<H>>;

    closed spec fn view(&self) -> Map<CacheKey, Arc<H>> {
        self.table@
    }
}

impl<H> PipelineCache<H> {
    /// An empty cache.
    pub fn new() -> (r: Self)
        ensures
            r@ == Map::<CacheKey, Arc<H>>::empty(),
    {
        PipelineCache { table: FnvHashMap::default() }
    }

    /// The handle cached for this configuration, if one was built.
    pub fn get(&self, msaa_sample_count: u32, format: TextureFormat) -> (r: Option<Arc<H>>)
        ensures
            match r {
                Some(h) => self@.contains_key(key_of(msaa_sample_count, format))
                    && self@[key_of(msaa_sample_count, format)] == h,
                None => !self@.contains_key(key_of(msaa_sample_count, format)),
            },
    {
        match table_get(&self.table, &(msaa_sample_count, format.0)) {
            Some(h) => Some(h.clone()),
            None => None,
        }
    }

    /// The pipeline for this configuration: the cached handle when one exists,
    /// in which case `build` is not run; otherwise `build` runs once, and on
    /// success its result is cached and returned. A failed construction leaves
    /// the cache as it was, so a later request for the same configuration
    /// tries again.
    pub fn get_or_build<E, F: FnOnce() -> Result<H, E>>(
        &mut self,
        msaa_sample_count: u32,
        format: TextureFormat,
        build: F,
    ) -> (r: Result<Arc<H>, E>)
        requires
            !old(self)@.contains_key(key_of(msaa_sample_count, format)) ==> build.requires(()),
        ensures
            cache_outcome(
                old(self)@,
                key_of(msaa_sample_count, format),
                |x: Result<H, E>| build.ensures((), x),
                r,
                final(self)@,
            ),
    {
        let key: CacheKey = (msaa_sample_count, format.0);
        if let Some(h) = table_get(&self.table, &key) {
            return Ok(h.clone());
        }
        match build() {
            Ok(pipeline) => {
                let h = Arc::new(pipeline);
                table_insert(&mut self.table, key, h.clone());
                Ok(h)
            },
            Err(e) => Err(e),
        }
    }

    /// Number of configurations with a cached pipeline.
    pub fn len(&self) -> (r: usize)
        ensures
            r == self@.len(),
    {
        table_len(&self.table)
    }
}

/// Memoization: once a request for `key` has succeeded, every later request
/// for `key` in a run of requests returns that same handle without
/// constructing anything, and the cache no longer changes.
pub proof fn lemma_repeated_requests_share_handle<H, E>(
    states: Seq<Map<CacheKey, Arc<H>>>,
    builds: Seq<spec_fn(Result<H, E>) -> bool>,
    results: Seq<Result<Arc<H>, E>>,
    key: CacheKey,
)
    requires
        results.len() >= 1,
        states.len() == results.len() + 1,
        builds.len() == results.len(),
        forall|i: int|
            0 <= i < results.len() ==> cache_outcome(
                states[i],
                key,
                #[trigger] builds[i],
                results[i],
                states[i + 1],
            ),
        results[0] is Ok,
    ensures
        forall|i: int| 0 <= i < results.len() ==> #[trigger] results[i] == results[0],
        forall|i: int| 1 <= i < states.len() ==> #[trigger] states[i] == states[1],
        states[1].contains_key(key),
{
    let h = results[0]->Ok_0;
    assert(cache_outcome(states[0], key, builds[0], results[0], states[1]));
    assert(states[1].contains_key(key) && states[1][key] == h);
    assert forall|i: int| 1 <= i < states.len() implies #[trigger] states[i] == states[1] by {
        lemma_cached_run(states, builds, results, key, h, i);
    }
    assert forall|i: int| 0 <= i < results.len() implies #[trigger] results[i] == results[0] by {
        if i > 0 {
            lemma_cached_run(states, builds, results, key, h, i);
            assert(cache_outcome(states[i], key, builds[i], results[i], states[i + 1]));
        }
    }
}

proof fn lemma_cached_run<H, E>(
    states: Seq<Map<CacheKey, Arc<H>>>,
    builds: Seq<spec_fn(Result<H, E>) -> bool>,
    results: Seq<Result<Arc<H>, E>>,
    key: CacheKey,
    h: Arc<H>,
    i: int,
)
    requires
        states.len() == results.len() + 1,
        builds.len() == results.len(),
        forall|j: int|
            0 <= j < results.len() ==> cache_outcome(
                states[j],
                key,
                #[trigger] builds[j],
                results[j],
                states[j + 1],
            ),
        states[1].contains_key(key),
        states[1][key] == h,
        1 <= i < states.len(),
    ensures
        states[i] == states[1],
    decreases i,
{
    if i > 1 {
        lemma_cached_run(states, builds, results, key, h, i - 1);
        assert(cache_outcome(states[i - 1], key, builds[i - 1], results[i - 1], states[i]));
    }
}

/// Key independence: a request for one configuration leaves the entry of
/// every other configuration as it was, and a request for a configuration that
/// is not cached yet gets a handle of its own construction.
pub proof fn lemma_keys_independent<H, E>(
    before: Map<CacheKey, Arc<H>>,
    key: CacheKey,
    built: spec_fn(Result<H, E>) -> bool,
    r: Result<Arc<H>, E>,
    after: Map<CacheKey, Arc<H>>,
    other: CacheKey,
)
    requires
        cache_outcome(before, key, built, r, after),
        other != key,
    ensures
        after.contains_key(other) == before.contains_key(other),
        before.contains_key(other) ==> after[other] == before[other],
        !before.contains_key(key) && r is Ok ==> built(Ok::<H, E>(*(r->Ok_0))),
{
}

/// A failed construction is not cached: the cache is left as it was, so the
/// next request for the same configuration constructs again.
pub proof fn lemma_failure_not_cached<H, E>(
    before: Map<CacheKey, Arc<H>>,
    key: CacheKey,
    built: spec_fn(Result<H, E>) -> bool,
    r: Result<Arc<H>, E>,
    after: Map<CacheKey, Arc<H>>,
)
    requires
        cache_outcome(before, key, built, r, after),
        r is Err,
    ensures
        after == before,
        !before.contains_key(key) ==> !after.contains_key(key) && built(Err::<H, E>(r->Err_0)),
{
}

} // verus!
