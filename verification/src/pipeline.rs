//! The render pipeline: the one fixed draw program, described as plain data.

use vstd::prelude::*;

verus! {

/// How consecutive vertices are assembled into primitives.
#[derive(Clone, Copy, Debug, PartialEq, Eq, Structural)]
pub enum Topology {
    PointList,
    LineList,
    LineStrip,
    TriangleList,
    TriangleStrip,
}

/// The winding order that marks the front of a triangle.
#[derive(Clone, Copy, Debug, PartialEq, Eq, Structural)]
pub enum FrontFace {
    CounterClockwise,
    Clockwise,
}

/// One side of a triangle.
#[derive(Clone, Copy, Debug, PartialEq, Eq, Structural)]
pub enum Face {
    Front,
    Back,
}

/// How the interior of a primitive is rasterized.
#[derive(Clone, Copy, Debug, PartialEq, Eq, Structural)]
pub enum PolygonMode {
    Fill,
    Line,
    Point,
}

/// How a fragment is combined with what the target already holds.
#[derive(Clone, Copy, Debug, PartialEq, Eq, Structural)]
pub enum Blend {
    Replace,
    AlphaBlending,
}

/// The colour channels of the target that a draw writes.
#[derive(Clone, Copy, Debug, PartialEq, Eq, Structural)]
pub struct ChannelMask {
    pub red: bool,
    pub green: bool,
    pub blue: bool,
    pub alpha: bool,
}

/// Everything the device needs to build the render pipeline.
#[derive(Clone, Copy, Debug, PartialEq, Eq)]
pub struct PipelinePlan {
    /// Name of the vertex entry point in the shader program.
    pub vertex_entry: &'static str,
    /// Name of the fragment entry point in the shader program.
    pub fragment_entry: &'static str,
    /// Number of resource groups in the pipeline layout.
    pub bind_groups: u32,
    /// Number of vertex buffers the draw reads.
    pub vertex_buffers: u32,
    pub topology: Topology,
    pub front_face: FrontFace,
    /// The side that is discarded, if any.
    pub cull: Option<Face>,
    pub polygon_mode: PolygonMode,
    /// Whether a depth/stencil attachment is used.
    pub depth_stencil: bool,
    /// Samples per pixel.
    pub samples: u32,
    /// Which samples are written.
    pub sample_mask: u64,
    pub alpha_to_coverage: bool,
    /// Pixel format of the single colour target.
    pub target_format: wgpu::TextureFormat,
    pub blend: Blend,
    pub write_mask: ChannelMask,
}

/// The pipeline of this renderer for a surface of the given format: a
/// triangle list with counter-clockwise fronts and culled backs, filled,
/// without depth or stencil, single-sampled, with no bound resources and no
/// vertex buffers, writing all channels of one colour target of that format
/// by replacement.
pub open spec fn fixed_pipeline(format: wgpu::TextureFormat) -> PipelinePlan {
    PipelinePlan {
        vertex_entry: "vs_main",
        fragment_entry: "fs_main",
        bind_groups: 0,
        vertex_buffers: 0,
        topology: Topology::TriangleList,
        front_face: FrontFace::CounterClockwise,
        cull: Some(Face::Back),
        polygon_mode: PolygonMode::Fill,
        depth_stencil: false,
        samples: 1,
        sample_mask: u64::MAX,
        alpha_to_coverage: false,
        target_format: format,
        blend: Blend::Replace,
        write_mask: ChannelMask { red: true, green: true, blue: true, alpha: true },
    }
}

/// Describes the pipeline for a surface of the given format.
pub fn pipeline_plan(format: wgpu::TextureFormat) -> (plan: PipelinePlan)
    ensures
        plan == fixed_pipeline(format),
{
    PipelinePlan {
        vertex_entry: "vs_main",
        fragment_entry: "fs_main",
        bind_groups: 0,
        vertex_buffers: 0,
        topology: Topology::TriangleList,
        front_face: FrontFace::CounterClockwise,
        cull: Some(Face::Back),
        polygon_mode: PolygonMode::Fill,
        depth_stencil: false,
        samples: 1,
        sample_mask: u64::MAX,
        alpha_to_coverage: false,
        target_format: format,
        blend: Blend::Replace,
        write_mask: ChannelMask { red: true, green: true, blue: true, alpha: true },
    }
}

} // verus!
