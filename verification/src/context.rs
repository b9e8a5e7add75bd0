//! The graphics context: the aggregate state the renderer carries between
//! frames, with its invariant, its resize path and its per-frame reaction.
//!
//! The shell owns the GPU handles (surface, device, queue, pipeline,
//! buffer); this model owns everything those handles are driven by: the
//! configuration, the pipeline description, and the vertex data.

use vstd::prelude::*;
use crate::config::SurfaceConfig;
use crate::config::chosen_format_index;
use crate::config::floored;
use crate::config::initial_config;
use crate::geometry::VertexPos;
use crate::geometry::triangle;
use crate::geometry::triangle_spec;
use crate::pipeline::PipelineDesc;
use crate::pipeline::pipeline_desc;
use crate::pipeline::pipeline_desc_spec;
use crate::render::AcquireClass;
use crate::render::AcquireOutcome;
use crate::render::FramePlan;
use crate::render::classification;
use crate::render::classify_acquire;
use crate::render::frame_plan_spec;

verus! {

/// The verified model of the graphics context. Constructed once after the
/// window exists, destroyed only at shutdown.
pub struct GraphicsContext {
    pub config: SurfaceConfig,
    pub pipeline: PipelineDesc,
    pub vertices: Vec<VertexPos>,
    pub vertex_count: u32,
    /// True after a resize reported a zero dimension, until a non-zero
    /// resize arrives: the window is minimized and rendering is skipped.
    pub minimized: bool,
}

/// What a frame tick asks of the shell, exactly one reaction per
/// acquisition outcome.
#[derive(Clone, Copy, Debug, PartialEq, Eq, Structural)]
pub enum FrameStep {
    /// Record, submit and present the given command sequence.
    Draw(FramePlan),
    /// Reconfigure the surface to the given (last known) size; skip the
    /// frame and retry on the next tick.
    Reconfigure(u32, u32),
    /// Log the failure and skip the frame.
    Skip,
    /// Terminate the process.
    Exit,
}

impl GraphicsContext {
    /// The context invariant: the configuration is well formed, the
    /// pipeline targets the configured surface format, and the vertex
    /// buffer holds exactly the three fixed triangle vertices.
    pub open spec fn wf(self) -> bool {
        &&& self.config.wf()
        &&& self.pipeline == pipeline_desc_spec(self.config.format_index)
        &&& self.vertices@ == triangle_spec()
        &&& self.vertex_count == 3
    }

    /// Build the context model from the window's physical size and the
    /// reported surface format capabilities (for each, whether it is
    /// sRGB). The shell then creates the GPU resources this describes.
    pub fn new(width: u32, height: u32, srgb_formats: &Vec<bool>) -> (g: GraphicsContext)
        requires
            srgb_formats@.len() > 0,
        ensures
            g.wf(),
            g.config.width == floored(width),
            g.config.height == floored(height),
            chosen_format_index(srgb_formats@, g.config.format_index as int),
            !g.minimized,
    {
        let config = initial_config(width, height, srgb_formats);
        let pipeline = pipeline_desc(&config);
        let vertices = triangle();
        let vertex_count = vertices.len() as u32;
        GraphicsContext { config, pipeline, vertices, vertex_count, minimized: false }
    }

    /// Apply a window resize. A zero extent is a minimized window: the
    /// stored configuration is unchanged, the surface must not be
    /// reconfigured, and rendering is skipped until a non-zero resize
    /// arrives. Otherwise the new extent is stored, the context leaves the
    /// minimized state, and the shell must reconfigure the surface exactly
    /// once. Nothing else of the context changes either way.
    pub fn resize(&mut self, width: u32, height: u32) -> (reconfigure: bool)
        requires
            old(self).wf(),
        ensures
            final(self).wf(),
            reconfigure == (width > 0 && height > 0),
            final(self).minimized == (width == 0 || height == 0),
            (width == 0 || height == 0) ==> final(self).config == old(self).config,
            (width > 0 && height > 0) ==> final(self).config == (SurfaceConfig {
                width,
                height,
                ..old(self).config
            }),
            final(self).pipeline == old(self).pipeline,
            final(self).vertices@ == old(self).vertices@,
            final(self).vertex_count == old(self).vertex_count,
    {
        let reconfigure = self.config.resize(width, height);
        self.minimized = width == 0 || height == 0;
        reconfigure
    }

    /// The command sequence a successful frame records.
    pub fn frame_plan(&self) -> (plan: FramePlan)
        requires
            self.wf(),
        ensures
            plan == frame_plan_spec(self.vertex_count),
            plan.draw.vertex_count == 3,
            plan.draw.instance_count == 1,
    {
        FramePlan {
            clear: crate::render::ClearColor { r_centi: 8, g_centi: 8, b_centi: 9, a_centi: 100 },
            store_result: true,
            vertex_buffer_slot: 0,
            draw: crate::render::DrawCall {
                first_vertex: 0,
                vertex_count: self.vertex_count,
                first_instance: 0,
                instance_count: 1,
            },
            has_depth_stencil: false,
            occlusion_queries: false,
            timestamp_queries: false,
        }
    }

    /// React to one frame tick: while the window is minimized every tick
    /// is skipped outright — no draw, no reconfiguration — until a
    /// non-zero resize arrives. Otherwise: draw on a successful acquire,
    /// reconfigure to the last known size on a recoverable failure, exit
    /// on out-of-memory, and skip (after logging) on any other failure.
    /// The context itself does not change on any path.
    pub fn on_acquire(&self, outcome: AcquireOutcome) -> (step: FrameStep)
        requires
            self.wf(),
        ensures
            self.minimized ==> step == FrameStep::Skip,
            !self.minimized && classification(outcome) == AcquireClass::Proceed ==> step
                == FrameStep::Draw(frame_plan_spec(self.vertex_count)),
            !self.minimized && classification(outcome) == AcquireClass::Recover ==> step
                == FrameStep::Reconfigure(self.config.width, self.config.height),
            !self.minimized && classification(outcome) == AcquireClass::Fatal ==> step
                == FrameStep::Exit,
            !self.minimized && classification(outcome) == AcquireClass::SoftSkip ==> step
                == FrameStep::Skip,
    {
        if self.minimized {
            return FrameStep::Skip;
        }
        match classify_acquire(outcome) {
            AcquireClass::Proceed => FrameStep::Draw(self.frame_plan()),
            AcquireClass::Recover => FrameStep::Reconfigure(self.config.width, self.config.height),
            AcquireClass::Fatal => FrameStep::Exit,
            AcquireClass::SoftSkip => FrameStep::Skip,
        }
    }
}

/// A well-formed context always holds exactly the three fixed triangle
/// vertices, and a successful frame draws exactly them, once, with one
/// instance, whatever the configuration.
pub proof fn lemma_geometry_invariant(g: GraphicsContext)
    requires
        g.wf(),
    ensures
        g.vertices@ == triangle_spec(),
        g.vertices@.len() == 3,
        g.vertex_count == 3,
        frame_plan_spec(g.vertex_count).draw.first_vertex == 0,
        frame_plan_spec(g.vertex_count).draw.vertex_count == 3,
        frame_plan_spec(g.vertex_count).draw.first_instance == 0,
        frame_plan_spec(g.vertex_count).draw.instance_count == 1,
{
}

} // verus!
