//! The render pipeline's fixed configuration, matched to the geometry
//! layout and the configured surface format.
//!
//! The shading-language compile itself happens in the GPU backend, driven
//! by the shell; what is verified here is the configuration the pipeline
//! must be built with.

use vstd::prelude::*;
use crate::config::SurfaceConfig;
use crate::geometry::VertexLayout;
use crate::geometry::vertex_layout;
use crate::geometry::vertex_layout_spec;

verus! {

/// The fixed two-stage pipeline configuration: one vertex stream, no
/// resource bindings, no push constants, straight-replace blending into a
/// single color target of the surface's format, no depth/stencil, no
/// multisampling, default (triangle-list) topology, single view.
#[derive(Clone, Copy, Debug, PartialEq, Eq, Structural)]
pub struct PipelineDesc {
    /// The color target's format: must equal the surface's configured
    /// format, by index into the reported capability list.
    pub target_format_index: usize,
    /// Every fragment overwrites the destination; no alpha blending.
    pub blend_replace: bool,
    /// All color channels are written.
    pub write_mask_all: bool,
    pub vertex_layout: VertexLayout,
    /// Number of resource-binding group layouts; this program has none.
    pub bind_group_layouts: usize,
    /// Number of push-constant ranges; this program has none.
    pub push_constant_ranges: usize,
    pub has_depth_stencil: bool,
    /// Samples per pixel; no multisampling.
    pub sample_count: u32,
    pub triangle_list: bool,
    /// One view per draw; no multiview rendering.
    pub single_view: bool,
}

/// The pipeline configuration owed for a surface configured with the given
/// format.
pub open spec fn pipeline_desc_spec(format_index: usize) -> PipelineDesc {
    PipelineDesc {
        target_format_index: format_index,
        blend_replace: true,
        write_mask_all: true,
        vertex_layout: vertex_layout_spec(),
        bind_group_layouts: 0,
        push_constant_ranges: 0,
        has_depth_stencil: false,
        sample_count: 1,
        triangle_list: true,
        single_view: true,
    }
}

/// Derive the pipeline configuration from the surface configuration. The
/// color target format equals the surface format; a mismatch would be a
/// pipeline-creation error in the backend and is never silently coerced.
pub fn pipeline_desc(config: &SurfaceConfig) -> (p: PipelineDesc)
    ensures
        p == pipeline_desc_spec(config.format_index),
{
    PipelineDesc {
        target_format_index: config.format_index,
        blend_replace: true,
        write_mask_all: true,
        vertex_layout: vertex_layout(),
        bind_group_layouts: 0,
        push_constant_ranges: 0,
        has_depth_stencil: false,
        sample_count: 1,
        triangle_list: true,
        single_view: true,
    }
}

} // verus!
