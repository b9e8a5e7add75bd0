//! Surface configuration: format choice, size flooring, and resize.
//!
//! The shell reads the surface's capabilities from the adapter and hands
//! them here as plain values (for each offered format, whether it is sRGB);
//! the choice of format, the initial configuration and every resize are
//! verified. The shell applies a configuration to the surface exactly when
//! told to.

use vstd::prelude::*;

verus! {

/// Presentation modes the backend offers. This client always configures
/// `Fifo`: vertical-sync locked, safe on every backend.
#[derive(Clone, Copy, Debug, PartialEq, Eq, Structural)]
pub enum PresentMode {
    Fifo,
    FifoRelaxed,
    Immediate,
    Mailbox,
}

/// Frames the presentation engine may queue before acquire blocks.
pub const DESIRED_FRAME_LATENCY: u32 = 2;

/// The stored surface configuration. The format and alpha mode are indices
/// into the capability lists the adapter reported, in their reported order.
#[derive(Clone, Copy, Debug, PartialEq, Eq, Structural)]
pub struct SurfaceConfig {
    /// Index of the chosen format in the reported format list.
    pub format_index: usize,
    pub width: u32,
    pub height: u32,
    pub present_mode: PresentMode,
    /// Index of the chosen alpha compositing mode in the reported list.
    pub alpha_index: usize,
    pub frame_latency: u32,
    /// The surface's textures are used as render attachments, nothing
    /// else.
    pub usage_render_attachment: bool,
}

impl SurfaceConfig {
    /// The configuration invariant: the surface is never configured with a
    /// zero extent, presentation is vsync-locked, the alpha mode is the
    /// first reported, the frame-latency target is fixed, and the surface
    /// is configured for render-attachment use.
    pub open spec fn wf(self) -> bool {
        &&& self.width >= 1
        &&& self.height >= 1
        &&& self.present_mode == PresentMode::Fifo
        &&& self.alpha_index == 0
        &&& self.frame_latency == DESIRED_FRAME_LATENCY
        &&& self.usage_render_attachment
    }

    /// Apply a window resize: a zero extent means the window is minimized
    /// and the stored configuration must not change (and the surface must
    /// not be reconfigured); otherwise the new extent is stored and the
    /// caller must reconfigure the surface exactly once.
    pub fn resize(&mut self, width: u32, height: u32) -> (reconfigure: bool)
        requires
            old(self).wf(),
        ensures
            final(self).wf(),
            reconfigure == (width > 0 && height > 0),
            (width == 0 || height == 0) ==> *final(self) == *old(self),
            (width > 0 && height > 0) ==> *final(self) == (SurfaceConfig {
                width,
                height,
                ..*old(self)
            }),
    {
        if width == 0 || height == 0 {
            return false;
        }
        self.width = width;
        self.height = height;
        true
    }
}

/// Whether `i` is the index the format choice rule picks from a capability
/// list whose sRGB flags are `srgb`: the first sRGB-encoded format, or the
/// first format of the list when none is sRGB.
pub open spec fn chosen_format_index(srgb: Seq<bool>, i: int) -> bool {
    &&& 0 <= i < srgb.len()
    &&& srgb.contains(true) ==> srgb[i] && (forall|j: int| 0 <= j < i ==> !srgb[j])
    &&& !srgb.contains(true) ==> i == 0
}

/// Pick the surface format: the first sRGB format the capabilities report,
/// or the first reported format when none is sRGB (a functional but
/// visually incorrect format is preferred to failing).
pub fn choose_format_index(srgb: &Vec<bool>) -> (i: usize)
    requires
        srgb@.len() > 0,
    ensures
        chosen_format_index(srgb@, i as int),
{
    let mut k: usize = 0;
    while k < srgb.len()
        invariant
            k <= srgb@.len(),
            forall|j: int| 0 <= j < k ==> !srgb@[j],
        decreases srgb@.len() - k,
    {
        if srgb[k] {
            proof {
                assert(srgb@[k as int] == true);
            }
            return k;
        }
        k = k + 1;
    }
    0
}

/// The size a window dimension contributes to the surface configuration: a
/// zero dimension is floored to 1, since a zero-sized surface is invalid.
pub open spec fn floored(dim: u32) -> u32 {
    if dim == 0 {
        1u32
    } else {
        dim
    }
}

/// Derive the initial surface configuration from the window's physical size
/// and the reported format capabilities.
pub fn initial_config(width: u32, height: u32, srgb: &Vec<bool>) -> (c: SurfaceConfig)
    requires
        srgb@.len() > 0,
    ensures
        c.wf(),
        c.width == floored(width),
        c.height == floored(height),
        chosen_format_index(srgb@, c.format_index as int),
{
    let format_index = choose_format_index(srgb);
    SurfaceConfig {
        format_index,
        width: if width == 0 {
            1
        } else {
            width
        },
        height: if height == 0 {
            1
        } else {
            height
        },
        present_mode: PresentMode::Fifo,
        alpha_index: 0,
        frame_latency: DESIRED_FRAME_LATENCY,
        usage_render_attachment: true,
    }
}

} // verus!
