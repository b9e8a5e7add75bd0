//! The per-frame render cycle: acquisition outcomes, their classification,
//! and the one clear-and-draw command sequence recorded on success.
//!
//! The shell acquires the presentable target from the surface and reports
//! the outcome here; the reaction to every outcome, and the exact command
//! sequence recorded for a successful frame, are verified.

use vstd::prelude::*;

verus! {

/// Every way an acquisition of the next presentable target can end. The
/// failure variants mirror the backend's surface error kinds.
#[derive(Clone, Copy, Debug, PartialEq, Eq, Structural)]
pub enum AcquireOutcome {
    /// A presentable target was handed out.
    Success,
    /// The target was not handed out in time.
    Timeout,
    /// The surface no longer matches the window and must be reconfigured.
    Outdated,
    /// The swapchain was lost and must be reconfigured.
    Lost,
    /// The device is out of memory; no recovery is possible.
    OutOfMemory,
}

/// The four reactions a frame tick can have, exactly one per outcome.
#[derive(Clone, Copy, Debug, PartialEq, Eq, Structural)]
pub enum AcquireClass {
    /// Record, submit and present this frame.
    Proceed,
    /// Reconfigure the surface to the last known size and skip this frame.
    Recover,
    /// Terminate the process; the driver is in an unrecoverable state.
    Fatal,
    /// Log the failure and skip this frame; normal operation resumes.
    SoftSkip,
}

/// The classification rule: success proceeds, `Lost`/`Outdated` recover,
/// `OutOfMemory` is fatal, and every other failure is logged and skipped.
pub open spec fn classification(outcome: AcquireOutcome) -> AcquireClass {
    match outcome {
        AcquireOutcome::Success => AcquireClass::Proceed,
        AcquireOutcome::Lost => AcquireClass::Recover,
        AcquireOutcome::Outdated => AcquireClass::Recover,
        AcquireOutcome::OutOfMemory => AcquireClass::Fatal,
        AcquireOutcome::Timeout => AcquireClass::SoftSkip,
    }
}

/// Classify an acquisition outcome.
pub fn classify_acquire(outcome: AcquireOutcome) -> (class: AcquireClass)
    ensures
        class == classification(outcome),
        class == AcquireClass::Proceed <==> outcome == AcquireOutcome::Success,
        class == AcquireClass::Recover <==> (outcome == AcquireOutcome::Lost || outcome
            == AcquireOutcome::Outdated),
        class == AcquireClass::Fatal <==> outcome == AcquireOutcome::OutOfMemory,
        class == AcquireClass::SoftSkip <==> outcome == AcquireOutcome::Timeout,
{
    match outcome {
        AcquireOutcome::Success => AcquireClass::Proceed,
        AcquireOutcome::Lost => AcquireClass::Recover,
        AcquireOutcome::Outdated => AcquireClass::Recover,
        AcquireOutcome::OutOfMemory => AcquireClass::Fatal,
        AcquireOutcome::Timeout => AcquireClass::SoftSkip,
    }
}

/// The classification of acquisition outcomes is total and exclusive:
/// every outcome maps to exactly one of the four reactions.
pub proof fn lemma_acquire_classification_total(outcome: AcquireOutcome)
    ensures
        classification(outcome) == AcquireClass::Proceed || classification(outcome)
            == AcquireClass::Recover || classification(outcome) == AcquireClass::Fatal
            || classification(outcome) == AcquireClass::SoftSkip,
        classification(outcome) == AcquireClass::Proceed <==> outcome == AcquireOutcome::Success,
        classification(outcome) == AcquireClass::Recover <==> (outcome == AcquireOutcome::Lost
            || outcome == AcquireOutcome::Outdated),
        classification(outcome) == AcquireClass::Fatal <==> outcome == AcquireOutcome::OutOfMemory,
        classification(outcome) == AcquireClass::SoftSkip <==> outcome == AcquireOutcome::Timeout,
{
}

/// The clear color, with each channel in hundredths of full intensity; the
/// shell scales the channels down to the unit-interval floats the backend
/// takes.
#[derive(Clone, Copy, Debug, PartialEq, Eq, Structural)]
pub struct ClearColor {
    pub r_centi: u8,
    pub g_centi: u8,
    pub b_centi: u8,
    pub a_centi: u8,
}

/// The fixed dark background every frame clears to: (0.08, 0.08, 0.09, 1.0).
pub open spec fn clear_color_spec() -> ClearColor {
    ClearColor { r_centi: 8u8, g_centi: 8u8, b_centi: 9u8, a_centi: 100u8 }
}

/// One draw call: a vertex range and an instance range.
#[derive(Clone, Copy, Debug, PartialEq, Eq, Structural)]
pub struct DrawCall {
    pub first_vertex: u32,
    pub vertex_count: u32,
    pub first_instance: u32,
    pub instance_count: u32,
}

/// The one command sequence a successful frame records: a single render
/// pass that clears the acquired target to the fixed background, persists
/// the result, binds the pipeline and the full vertex buffer at slot 0,
/// and issues one draw over the stored vertex count, one instance.
#[derive(Clone, Copy, Debug, PartialEq, Eq, Structural)]
pub struct FramePlan {
    pub clear: ClearColor,
    /// The pass's store operation persists the result.
    pub store_result: bool,
    /// The slot the vertex buffer is bound at, spanning its full extent.
    pub vertex_buffer_slot: u32,
    pub draw: DrawCall,
    pub has_depth_stencil: bool,
    pub occlusion_queries: bool,
    pub timestamp_queries: bool,
}

/// The command sequence owed for a context holding `vertex_count` vertices.
pub open spec fn frame_plan_spec(vertex_count: u32) -> FramePlan {
    FramePlan {
        clear: clear_color_spec(),
        store_result: true,
        vertex_buffer_slot: 0,
        draw: DrawCall {
            first_vertex: 0,
            vertex_count,
            first_instance: 0,
            instance_count: 1,
        },
        has_depth_stencil: false,
        occlusion_queries: false,
        timestamp_queries: false,
    }
}

} // verus!
