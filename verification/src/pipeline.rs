//! The render pipeline: two shader stages, one colour target, no vertex
//! buffers.

use crate::resources::BindGroupLayoutEntry;
use crate::surface::SurfaceConfig;
use vstd::prelude::*;

verus! {

/// How vertices are assembled into primitives.
#[derive(Clone, Copy, Debug, PartialEq, Eq, Hash, Structural)]
pub enum PrimitiveTopology {
    PointList,
    LineList,
    LineStrip,
    TriangleList,
    TriangleStrip,
}

/// How a fragment's colour is combined with what the target holds.
#[derive(Clone, Copy, Debug, PartialEq, Eq, Hash, Structural)]
pub enum BlendMode {
    /// The fragment's colour replaces what was there.
    Replace,
    AlphaBlending,
    PremultipliedAlphaBlending,
}

/// Which channels of the target are written.
#[derive(Clone, Copy, Debug, PartialEq, Eq, Hash, Structural)]
pub enum ColorWrites {
    Red,
    Green,
    Blue,
    Alpha,
    Color,
    All,
}

/// The colour target of the pipeline.
#[derive(Clone, Copy, Debug, PartialEq, Eq)]
pub struct ColorTarget {
    pub format: wgpu::TextureFormat,
    pub blend: Option<BlendMode>,
    pub write_mask: ColorWrites,
}

/// A render pipeline to create, together with its pipeline layout.
#[derive(Clone, Copy, Debug, PartialEq, Eq)]
pub struct PipelineDesc {
    /// The binding of the one bind group layout the pipeline layout refers
    /// to.
    pub layout: BindGroupLayoutEntry,
    /// The number of push constant ranges of the pipeline layout.
    pub push_constant_ranges: u32,
    /// The name of the vertex stage's entry point in the shader module.
    pub vertex_entry: &'static str,
    /// The number of vertex buffers the vertex stage reads.
    pub vertex_buffers: u32,
    /// The name of the fragment stage's entry point in the shader module.
    pub fragment_entry: &'static str,
    pub target: ColorTarget,
    pub topology: PrimitiveTopology,
    /// Whether the pipeline has a depth-stencil state.
    pub depth_stencil: bool,
    /// The number of samples per pixel.
    pub sample_count: u32,
}

impl PipelineDesc {
    /// The pipeline that draws the triangle into a target of `format`, with
    /// a layout that refers to exactly the bind group layout of `layout`:
    /// `vs_main` makes the vertices up from their index, so there is no
    /// vertex buffer; `fs_main` writes all channels of its colour over what
    /// the target held, without blending; triangles are assembled from a
    /// list; there is no depth-stencil state and no multisampling.
    pub open spec fn for_target_spec(
        format: wgpu::TextureFormat,
        layout: BindGroupLayoutEntry,
    ) -> PipelineDesc {
        PipelineDesc {
            layout,
            push_constant_ranges: 0,
            vertex_entry: "vs_main",
            vertex_buffers: 0,
            fragment_entry: "fs_main",
            target: ColorTarget {
                format,
                blend: Some(BlendMode::Replace),
                write_mask: ColorWrites::All,
            },
            topology: PrimitiveTopology::TriangleList,
            depth_stencil: false,
            sample_count: 1,
        }
    }

    /// Describes the pipeline for the surface as it is configured now. Its
    /// target has the surface's format.
    pub fn for_surface(
        config: &SurfaceConfig,
        layout: &BindGroupLayoutEntry,
    ) -> (pipeline: PipelineDesc)
        ensures
            pipeline == Self::for_target_spec(config.format, *layout),
            pipeline.target.format == config.format,
    {
        PipelineDesc {
            layout: *layout,
            push_constant_ranges: 0,
            vertex_entry: "vs_main",
            vertex_buffers: 0,
            fragment_entry: "fs_main",
            target: ColorTarget {
                format: config.format,
                blend: Some(BlendMode::Replace),
                write_mask: ColorWrites::All,
            },
            topology: PrimitiveTopology::TriangleList,
            depth_stencil: false,
            sample_count: 1,
        }
    }
}

} // verus!
