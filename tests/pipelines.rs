use gpu_descriptors::cache::{PipelineCache, TextureFormat};
use gpu_descriptors::descriptors::Descriptors;
use gpu_descriptors::pipeline::{
    copy_descriptor, BindLayout, BlendMode, CopyShader, FrontFace, PipelineDescriptor,
    PrimitiveTopology, VertexLayout,
};
use gpu_descriptors::quad::BufferUsage;
use std::sync::atomic::{AtomicUsize, Ordering};
use std::sync::Arc;

const FORMAT_A: TextureFormat = TextureFormat(23);
const FORMAT_B: TextureFormat = TextureFormat(27);

struct MockDevice {
    constructions: AtomicUsize,
    rejected: Option<(u32, TextureFormat)>,
}

#[derive(Debug)]
struct Pipeline {
    descriptor: PipelineDescriptor,
    serial: usize,
}

#[derive(Debug, PartialEq)]
struct DeviceError(u32);

impl MockDevice {
    fn new(rejected: Option<(u32, TextureFormat)>) -> Self {
        MockDevice { constructions: AtomicUsize::new(0), rejected }
    }

    fn create_render_pipeline(&self, descriptor: PipelineDescriptor) -> Result<Pipeline, DeviceError> {
        let serial = self.constructions.fetch_add(1, Ordering::SeqCst);
        if self.rejected == Some((descriptor.sample_count, descriptor.format)) {
            return Err(DeviceError(descriptor.sample_count));
        }
        Ok(Pipeline { descriptor, serial })
    }

    fn count(&self) -> usize {
        self.constructions.load(Ordering::SeqCst)
    }
}

#[derive(Debug, PartialEq)]
struct Limits {
    max_samples: u32,
}

type Buffer = (Vec<u8>, BufferUsage);
type Context = Descriptors<Arc<MockDevice>, Limits, Buffer, (u32, Buffer), Pipeline, Vec<Pipeline>>;

fn context(rejected: Option<(u32, TextureFormat)>) -> Context {
    Descriptors::new(
        Arc::new(MockDevice::new(rejected)),
        Limits { max_samples: 8 },
        &|data: Vec<u8>, usage: BufferUsage| (data, usage),
        |b: Buffer| (0, b),
    )
}

fn copy(ctx: &mut Context, format: TextureFormat, count: u32) -> Result<Arc<Pipeline>, DeviceError> {
    let device = Arc::clone(&ctx.device);
    ctx.copy_pipeline(format, count, move |d| device.create_render_pipeline(d))
}

#[test]
fn repeated_copy_requests_share_one_pipeline() {
    let mut ctx = context(None);
    let first = copy(&mut ctx, FORMAT_A, 1).unwrap();
    assert_eq!(ctx.device.count(), 1);
    let second = copy(&mut ctx, FORMAT_A, 1).unwrap();
    assert!(Arc::ptr_eq(&first, &second));
    assert_eq!(ctx.device.count(), 1);
    let msaa = copy(&mut ctx, FORMAT_A, 4).unwrap();
    assert!(!Arc::ptr_eq(&first, &msaa));
    assert_eq!(ctx.device.count(), 2);
    assert_eq!(msaa.descriptor.sample_count, 4);
    assert_eq!(ctx.copy_pipeline.len(), 2);
}

#[test]
fn many_sequential_requests_construct_once() {
    let mut ctx = context(None);
    let first = copy(&mut ctx, FORMAT_B, 2).unwrap();
    for _ in 0..50 {
        let again = copy(&mut ctx, FORMAT_B, 2).unwrap();
        assert!(Arc::ptr_eq(&first, &again));
    }
    assert_eq!(ctx.device.count(), 1);
}

#[test]
fn distinct_keys_get_distinct_pipelines() {
    let mut ctx = context(None);
    let a = copy(&mut ctx, FORMAT_A, 1).unwrap();
    let b = copy(&mut ctx, FORMAT_B, 1).unwrap();
    assert!(!Arc::ptr_eq(&a, &b));
    assert_ne!(a.serial, b.serial);
    assert_eq!(a.descriptor.format, FORMAT_A);
    assert_eq!(b.descriptor.format, FORMAT_B);
    let a_again = copy(&mut ctx, FORMAT_A, 1).unwrap();
    assert!(Arc::ptr_eq(&a, &a_again));
    assert_eq!(ctx.device.count(), 2);
}

#[test]
fn copy_kinds_have_separate_caches() {
    let mut ctx = context(None);
    let plain = copy(&mut ctx, FORMAT_A, 1).unwrap();
    let device = Arc::clone(&ctx.device);
    let srgb = ctx
        .copy_srgb_pipeline(FORMAT_A, 1, move |d| device.create_render_pipeline(d))
        .unwrap();
    assert!(!Arc::ptr_eq(&plain, &srgb));
    assert_eq!(plain.descriptor.shader, CopyShader::Copy);
    assert_eq!(srgb.descriptor.shader, CopyShader::CopySrgb);
    assert_eq!(ctx.device.count(), 2);
}

#[test]
fn rejected_configuration_is_retried() {
    let mut ctx = context(Some((8, FORMAT_A)));
    assert_eq!(copy(&mut ctx, FORMAT_A, 8).unwrap_err(), DeviceError(8));
    assert_eq!(ctx.copy_pipeline.len(), 0);
    assert_eq!(copy(&mut ctx, FORMAT_A, 8).unwrap_err(), DeviceError(8));
    assert_eq!(ctx.device.count(), 2);
    assert!(copy(&mut ctx, FORMAT_A, 1).is_ok());
    assert_eq!(ctx.device.count(), 3);
}

#[test]
fn standard_pipelines_are_built_together_once() {
    let mut ctx = context(None);
    let device = Arc::clone(&ctx.device);
    let build = |count: u32, format: TextureFormat| -> Result<Vec<Pipeline>, DeviceError> {
        let mut set = Vec::new();
        for _ in 0..3 {
            let mut d = copy_descriptor(CopyShader::Copy, format, count);
            d.blend = Some(BlendMode::PremultipliedAlphaBlending);
            set.push(device.create_render_pipeline(d)?);
        }
        Ok(set)
    };
    let first = ctx.pipelines(4, FORMAT_A, build).unwrap();
    let second = ctx.pipelines(4, FORMAT_A, build).unwrap();
    assert!(Arc::ptr_eq(&first, &second));
    assert_eq!(first.len(), 3);
    assert_eq!(ctx.device.count(), 3);
    assert_eq!(ctx.pipelines.len(), 1);
    assert_eq!(ctx.copy_pipeline.len(), 0);
}

#[test]
fn new_context_keeps_limits_and_binds_default_colors() {
    let ctx = context(None);
    assert_eq!(ctx.limits, Limits { max_samples: 8 });
    assert_eq!(ctx.default_color_bind_group.0, 0);
    assert_eq!(ctx.default_color_bind_group.1 .1, BufferUsage::Uniform);
    assert_eq!(ctx.default_color_bind_group.1 .0.len(), 32);
    assert_eq!(ctx.copy_pipeline.len(), 0);
    assert_eq!(ctx.copy_srgb_pipeline.len(), 0);
    assert_eq!(ctx.pipelines.len(), 0);
    assert_eq!(ctx.device.count(), 0);
}

#[test]
fn requests_from_several_renderers_behind_one_lock_construct_once() {
    let shared = std::sync::Mutex::new(context(None));
    let mut handles = Vec::new();
    for _ in 0..4 {
        let mut ctx = shared.lock().unwrap();
        handles.push(copy(&mut ctx, FORMAT_A, 4).unwrap());
    }
    assert_eq!(shared.lock().unwrap().device.count(), 1);
    for h in &handles {
        assert!(Arc::ptr_eq(h, &handles[0]));
    }
}

#[test]
fn copy_descriptor_overwrites_without_blending() {
    let d = copy_descriptor(CopyShader::CopySrgb, FORMAT_B, 4);
    assert_eq!(d.shader, CopyShader::CopySrgb);
    assert_eq!(d.bind_group_layouts, [BindLayout::Globals, BindLayout::Transforms, BindLayout::Bitmap]);
    assert_eq!(d.vertex_layout, VertexLayout::Pos);
    assert_eq!(d.format, FORMAT_B);
    assert_eq!(d.blend, Some(BlendMode::Replace));
    assert_eq!(d.topology, PrimitiveTopology::TriangleList);
    assert_eq!(d.front_face, FrontFace::Ccw);
    assert_eq!(d.cull_mode, None);
    assert!(!d.depth_stencil);
    assert_eq!(d.sample_count, 4);
    assert_eq!(d.sample_mask, u64::MAX);
    assert!(!d.alpha_to_coverage);
    assert_eq!(d.multiview, None);
}

#[test]
fn cache_memoizes_and_keeps_failures_out() {
    let mut cache: PipelineCache<u32> = PipelineCache::new();
    assert_eq!(cache.len(), 0);
    assert!(cache.get(1, FORMAT_A).is_none());
    let failed: Result<Arc<u32>, &str> = cache.get_or_build(1, FORMAT_A, || Err("rejected"));
    assert_eq!(failed.unwrap_err(), "rejected");
    assert_eq!(cache.len(), 0);
    let built = cache.get_or_build(1, FORMAT_A, || Ok::<u32, &str>(7)).unwrap();
    assert_eq!(*built, 7);
    let again = cache.get_or_build(1, FORMAT_A, || Ok::<u32, &str>(9)).unwrap();
    assert!(Arc::ptr_eq(&built, &again));
    let other = cache.get_or_build(2, FORMAT_A, || Ok::<u32, &str>(9)).unwrap();
    assert_eq!(*other, 9);
    assert_eq!(cache.len(), 2);
    assert!(Arc::ptr_eq(&cache.get(1, FORMAT_A).unwrap(), &built));
}
