use crate::cache::{cache_outcome, key_of, lemma_outcome_weaken, CacheKey, PipelineCache, TextureFormat};
use crate::color::{default_color_adjustment_words, default_color_adjustments};
use crate::pipeline::{copy_descriptor, is_copy_descriptor, CopyShader, PipelineDescriptor};
use crate::quad::{is_unit_quad, upload, uploaded, BufferUsage, Quad};
use std::sync::Arc;
use vstd::prelude::*;

verus! {

/// The resources of one graphics device that every renderer on it shares: the
/// device handle and its limits, the unit-quad geometry, the binding of the
/// default color adjustment, and a pipeline cache for each kind of pipeline.
/// `B` is a buffer of the device, `G` a bind group, `P` a render pipeline and
/// `S` the set of standard drawing pipelines for one render target
/// configuration.
///
/// A request for a pipeline needs exclusive access, so renderers on several
/// threads share one `Descriptors` behind a single lock: a lookup and, on a
/// miss, the construction that follows run under it, and racing requests for
/// one configuration construct it once. The handles handed out are shared
/// references, used without the lock.
///
/// The caches hold one entry per distinct (sample count, pixel format) in use
/// and are never evicted: their size is bounded by the few configurations an
/// application renders to.
pub struct Descriptors<D, L, B, G, P, S> {
    pub device: D,
    pub limits: L,
    pub quad: Quad<B>,
    pub default_color_bind_group: G,
    pub copy_pipeline: PipelineCache<P>,
    pub copy_srgb_pipeline: PipelineCache<P>,
    pub pipelines: PipelineCache<S>,
}

/// Results a construction by `create` from the copy descriptor for `shader`,
/// `format` and `msaa_sample_count` may give.
pub open spec fn copy_built<P, E, F: FnOnce(PipelineDescriptor) -> Result<P, E>>(
    create: F,
    shader: CopyShader,
    format: TextureFormat,
    msaa_sample_count: u32,
) -> spec_fn(Result<P, E>) -> bool {
    |x: Result<P, E>|
        exists|d: PipelineDescriptor|
            #[trigger] is_copy_descriptor(d, shader, format, msaa_sample_count) && create.ensures(
                (d,),
                x,
            )
}

/// Whether `binding` is what `create_color_binding` made of the uploaded
/// default color adjustment.
pub open spec fn color_bound<B, G, C: Fn(Vec<u8>, BufferUsage) -> B, K: FnOnce(B) -> G>(
    create_buffer: C,
    create_color_binding: K,
    binding: G,
) -> bool {
    exists|b: B|
        uploaded(create_buffer, default_color_adjustment_words(), BufferUsage::Uniform, b)
            && #[trigger] create_color_binding.ensures((b,), binding)
}

/// What one copy-pipeline request does to the cache `before` of its kind.
pub open spec fn copy_request<P, E, F: FnOnce(PipelineDescriptor) -> Result<P, E>>(
    before: Map<CacheKey, Arc<P>>,
    shader: CopyShader,
    format: TextureFormat,
    msaa_sample_count: u32,
    create: F,
    r: Result<Arc<P>, E>,
    after: Map<CacheKey, Arc<P>>,
) -> bool {
    cache_outcome(
        before,
        key_of(msaa_sample_count, format),
        copy_built(create, shader, format, msaa_sample_count),
        r,
        after,
    )
}

impl<D, L, B, G, P, S> Descriptors<D, L, B, G, P, S> {
    /// Takes over `device` and its `limits`, uploads through `create_buffer`
    /// the quad geometry and the default color adjustment, and binds the
    /// latter with `create_color_binding`. The caches start empty.
    pub fn new<C: Fn(Vec<u8>, BufferUsage) -> B, K: FnOnce(B) -> G>(
        device: D,
        limits: L,
        create_buffer: &C,
        create_color_binding: K,
    ) -> (r: Self)
        requires
            forall|data: Vec<u8>, u: BufferUsage| create_buffer.requires((data, u)),
            forall|b: B| create_color_binding.requires((b,)),
        ensures
            r.device == device,
            r.limits == limits,
            is_unit_quad(*create_buffer, r.quad),
            color_bound(*create_buffer, create_color_binding, r.default_color_bind_group),
            r.copy_pipeline@ == Map::<CacheKey, Arc<P>>::empty(),
            r.copy_srgb_pipeline@ == Map::<CacheKey, Arc<P>>::empty(),
            r.pipelines@ == Map::<CacheKey, Arc<S>>::empty(),
    {
        let quad = Quad::new(create_buffer);
        let adjustments = default_color_adjustments();
        let buffer = upload(create_buffer, adjustments.as_slice(), BufferUsage::Uniform);
        let ghost sent = buffer;
        let default_color_bind_group = create_color_binding(buffer);
        assert(uploaded(*create_buffer, default_color_adjustment_words(), BufferUsage::Uniform, sent)
            && create_color_binding.ensures((sent,), default_color_bind_group));
        assert(color_bound(*create_buffer, create_color_binding, default_color_bind_group));
        Descriptors {
            device,
            limits,
            quad,
            default_color_bind_group,
            copy_pipeline: PipelineCache::new(),
            copy_srgb_pipeline: PipelineCache::new(),
            pipelines: PipelineCache::new(),
        }
    }

    /// The pipeline that copies with sRGB-to-linear conversion onto a target
    /// of `format` with `msaa_sample_count` samples. A cached one is returned
    /// without calling `create`; otherwise `create` constructs it from its copy
    /// descriptor, and a success is cached while an error is handed back with
    /// nothing cached. Nothing else changes.
    pub fn copy_srgb_pipeline<E, F: FnOnce(PipelineDescriptor) -> Result<P, E>>(
        &mut self,
        format: TextureFormat,
        msaa_sample_count: u32,
        create: F,
    ) -> (r: Result<Arc<P>, E>)
        requires
            forall|d: PipelineDescriptor|
                is_copy_descriptor(d, CopyShader::CopySrgb, format, msaa_sample_count)
                    ==> #[trigger] create.requires((d,)),
        ensures
            copy_request(
                old(self).copy_srgb_pipeline@,
                CopyShader::CopySrgb,
                format,
                msaa_sample_count,
                create,
                r,
                final(self).copy_srgb_pipeline@,
            ),
            final(self).copy_pipeline@ == old(self).copy_pipeline@,
            final(self).pipelines@ == old(self).pipelines@,
            final(self).device == old(self).device,
            final(self).limits == old(self).limits,
            final(self).quad == old(self).quad,
            final(self).default_color_bind_group == old(self).default_color_bind_group,
    {
        request_copy(&mut self.copy_srgb_pipeline, CopyShader::CopySrgb, format, msaa_sample_count, create)
    }

    /// The pipeline that copies texels as they are onto a target of `format`
    /// with `msaa_sample_count` samples. A cached one is returned without
    /// calling `create`; otherwise `create` constructs it from its copy
    /// descriptor, and a success is cached while an error is handed back with
    /// nothing cached. Nothing else changes.
    pub fn copy_pipeline<E, F: FnOnce(PipelineDescriptor) -> Result<P, E>>(
        &mut self,
        format: TextureFormat,
        msaa_sample_count: u32,
        create: F,
    ) -> (r: Result<Arc<P>, E>)
        requires
            forall|d: PipelineDescriptor|
                is_copy_descriptor(d, CopyShader::Copy, format, msaa_sample_count)
                    ==> #[trigger] create.requires((d,)),
        ensures
            copy_request(
                old(self).copy_pipeline@,
                CopyShader::Copy,
                format,
                msaa_sample_count,
                create,
                r,
                final(self).copy_pipeline@,
            ),
            final(self).copy_srgb_pipeline@ == old(self).copy_srgb_pipeline@,
            final(self).pipelines@ == old(self).pipelines@,
            final(self).device == old(self).device,
            final(self).limits == old(self).limits,
            final(self).quad == old(self).quad,
            final(self).default_color_bind_group == old(self).default_color_bind_group,
    {
        request_copy(&mut self.copy_pipeline, CopyShader::Copy, format, msaa_sample_count, create)
    }

    /// The standard drawing pipelines for a target of `format` with
    /// `msaa_sample_count` samples. Cached ones are returned without calling
    /// `create`; otherwise one call `create(msaa_sample_count, format)` builds
    /// them all, and a success is cached while an error is handed back with
    /// nothing cached. Nothing else changes.
    pub fn pipelines<E, F: FnOnce(u32, TextureFormat) -> Result<S, E>>(
        &mut self,
        msaa_sample_count: u32,
        format: TextureFormat,
        create: F,
    ) -> (r: Result<Arc<S>, E>)
        requires
            create.requires((msaa_sample_count, format)),
        ensures
            cache_outcome(
                old(self).pipelines@,
                key_of(msaa_sample_count, format),
                |x: Result<S, E>| create.ensures((msaa_sample_count, format), x),
                r,
                final(self).pipelines@,
            ),
            final(self).copy_pipeline@ == old(self).copy_pipeline@,
            final(self).copy_srgb_pipeline@ == old(self).copy_srgb_pipeline@,
            final(self).device == old(self).device,
            final(self).limits == old(self).limits,
            final(self).quad == old(self).quad,
            final(self).default_color_bind_group == old(self).default_color_bind_group,
    {
        let build = move || -> (b: Result<S, E>)
            requires
                create.requires((msaa_sample_count, format)),
            ensures
                create.ensures((msaa_sample_count, format), b),
            { create(msaa_sample_count, format) };
        let ghost before = self.pipelines@;
        let r = self.pipelines.get_or_build(msaa_sample_count, format, build);
        proof {
            lemma_outcome_weaken(
                before,
                key_of(msaa_sample_count, format),
                |x: Result<S, E>| build.ensures((), x),
                |x: Result<S, E>| create.ensures((msaa_sample_count, format), x),
                r,
                self.pipelines@,
            );
        }
        r
    }
}

/// Two copy requests in a row for one configuration, the first successful:
/// the second returns the very handle of the first, constructs nothing and
/// leaves the cache as the first left it.
pub proof fn lemma_copy_request_repeats<
    P,
    E,
    F1: FnOnce(PipelineDescriptor) -> Result<P, E>,
    F2: FnOnce(PipelineDescriptor) -> Result<P, E>,
>(
    before: Map<CacheKey, Arc<P>>,
    middle: Map<CacheKey, Arc<P>>,
    after: Map<CacheKey, Arc<P>>,
    shader: CopyShader,
    format: TextureFormat,
    msaa_sample_count: u32,
    first: F1,
    second: F2,
    r1: Result<Arc<P>, E>,
    r2: Result<Arc<P>, E>,
)
    requires
        copy_request(before, shader, format, msaa_sample_count, first, r1, middle),
        copy_request(middle, shader, format, msaa_sample_count, second, r2, after),
        r1 is Ok,
    ensures
        r2 == r1,
        after == middle,
        middle.contains_key(key_of(msaa_sample_count, format)),
{
}

/// A copy pipeline from `cache`, built on a miss by `create` from the copy
/// descriptor for `shader`.
fn request_copy<P, E, F: FnOnce(PipelineDescriptor) -> Result<P, E>>(
    cache: &mut PipelineCache<P>,
    shader: CopyShader,
    format: TextureFormat,
    msaa_sample_count: u32,
    create: F,
) -> (r: Result<Arc<P>, E>)
    requires
        forall|d: PipelineDescriptor|
            is_copy_descriptor(d, shader, format, msaa_sample_count)
                ==> #[trigger] create.requires((d,)),
    ensures
        copy_request(old(cache)@, shader, format, msaa_sample_count, create, r, final(cache)@),
{
    let descriptor = copy_descriptor(shader, format, msaa_sample_count);
    let ghost sent = descriptor;
    let build = move || -> (b: Result<P, E>)
        requires
            create.requires((descriptor,)),
        ensures
            create.ensures((descriptor,), b),
        { create(descriptor) };
    let ghost before = cache@;
    let r = cache.get_or_build(msaa_sample_count, format, build);
    proof {
        let allowed = copy_built(create, shader, format, msaa_sample_count);
        assert forall|x: Result<P, E>| #[trigger] build.ensures((), x) implies allowed(x) by {
            assert(is_copy_descriptor(sent, shader, format, msaa_sample_count));
            assert(create.ensures((sent,), x));
        }
        lemma_outcome_weaken(
            before,
            key_of(msaa_sample_count, format),
            |x: Result<P, E>| build.ensures((), x),
            allowed,
            r,
            cache@,
        );
    }
    r
}

} // verus!
