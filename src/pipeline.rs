use crate::cache::TextureFormat;
use vstd::prelude::*;

verus! {

/// Shader program of a copy pipeline.
#[derive(Clone, Copy, Debug, PartialEq, Eq, Structural)]
pub enum CopyShader {
    /// Copies texels as they are.
    Copy,
    /// Converts texels from sRGB to linear while copying.
    CopySrgb,
}

/// Resource binding layouts shared by the pipelines.
#[derive(Clone, Copy, Debug, PartialEq, Eq, Structural)]
pub enum BindLayout {
    Globals,
    Transforms,
    Bitmap,
    ColorTransforms,
}

/// Vertex layouts of the unit quad.
#[derive(Clone, Copy, Debug, PartialEq, Eq, Structural)]
pub enum VertexLayout {
    Pos,
    PosColor,
    Filter,
}

#[derive(Clone, Copy, Debug, PartialEq, Eq, Structural)]
pub enum BlendMode {
    /// The fragment overwrites the target pixel.
    Replace,
    AlphaBlending,
    PremultipliedAlphaBlending,
}

#[derive(Clone, Copy, Debug, PartialEq, Eq, Structural)]
pub enum PrimitiveTopology {
    PointList,
    LineList,
    LineStrip,
    TriangleList,
    TriangleStrip,
}

#[derive(Clone, Copy, Debug, PartialEq, Eq, Structural)]
pub enum FrontFace {
    Ccw,
    Cw,
}

#[derive(Clone, Copy, Debug, PartialEq, Eq, Structural)]
pub enum Face {
    Front,
    Back,
}

/// Everything the device needs to construct one render pipeline.
#[derive(Clone, Copy, Debug)]
pub struct PipelineDescriptor {
    pub shader: CopyShader,
    pub bind_group_layouts: [BindLayout; 3],
    pub vertex_layout: VertexLayout,
    pub format: TextureFormat,
    pub blend: Option<BlendMode>,
    pub topology: PrimitiveTopology,
    pub front_face: FrontFace,
    pub cull_mode: Option<Face>,
    pub depth_stencil: bool,
    pub sample_count: u32,
    pub sample_mask: u64,
    pub alpha_to_coverage: bool,
    pub multiview: Option<u32>,
}

/// The pipeline that copies with `shader` onto a target of `format` with
/// `msaa_sample_count` samples: position-only quad vertices, globals,
/// transforms and bitmap bindings, one color target that is overwritten
/// without blending, a counter-clockwise triangle list with no culling, no
/// depth or stencil, every sample written, no alpha-to-coverage and no
/// multiview.
pub open spec fn is_copy_descriptor(
    d: PipelineDescriptor,
    shader: CopyShader,
    format: TextureFormat,
    msaa_sample_count: u32,
) -> bool {
    &&& d.shader == shader
    &&& d.bind_group_layouts@ == seq![BindLayout::Globals, BindLayout::Transforms, BindLayout::Bitmap]
    &&& d.vertex_layout == VertexLayout::Pos
    &&& d.format == format
    &&& d.blend == Some(BlendMode::Replace)
    &&& d.topology == PrimitiveTopology::TriangleList
    &&& d.front_face == FrontFace::Ccw
    &&& d.cull_mode == None::<Face>
    &&& !d.depth_stencil
    &&& d.sample_count == msaa_sample_count
    &&& d.sample_mask == u64::MAX
    &&& !d.alpha_to_coverage
    &&& d.multiview == None::<u32>
}

pub fn copy_descriptor(
    shader: CopyShader,
    format: TextureFormat,
    msaa_sample_count: u32,
) -> (d: PipelineDescriptor)
    ensures
        is_copy_descriptor(d, shader, format, msaa_sample_count),
{
    let d = PipelineDescriptor {
        shader,
        bind_group_layouts: [BindLayout::Globals, BindLayout::Transforms, BindLayout::Bitmap],
        vertex_layout: VertexLayout::Pos,
        format,
        blend: Some(BlendMode::Replace),
        topology: PrimitiveTopology::TriangleList,
        front_face: FrontFace::Ccw,
        cull_mode: None,
        depth_stencil: false,
        sample_count: msaa_sample_count,
        sample_mask: u64::MAX,
        alpha_to_coverage: false,
        multiview: None,
    };
    assert(d.bind_group_layouts@ =~= seq![BindLayout::Globals, BindLayout::Transforms, BindLayout::Bitmap]);
    d
}

} // verus!
