//! Backend negotiation: what the adapter and device requests must say, and
//! the diagnostics owed when negotiation fails.
//!
//! The requests themselves suspend inside the GPU backend, so the shell
//! performs them; the parameters they carry are computed and verified here.

use vstd::prelude::*;
use crate::options::GpuOptions;

verus! {

/// Adapter power preference, mirroring the backend's two choices.
#[derive(Clone, Copy, Debug, PartialEq, Eq, Structural)]
pub enum PowerPreference {
    LowPower,
    HighPerformance,
}

/// What the adapter request must carry: power preference, the fallback
/// override, and compatibility with the surface created beforehand.
#[derive(Clone, Copy, Debug, PartialEq, Eq, Structural)]
pub struct AdapterRequest {
    pub power_preference: PowerPreference,
    pub force_fallback: bool,
    /// The request must name the already-created surface as a compatibility
    /// constraint; adapter choice is surface-dependent.
    pub compatible_with_surface: bool,
}

/// Derive the adapter request from the parsed GPU options.
pub fn adapter_request(opts: GpuOptions) -> (req: AdapterRequest)
    ensures
        req.power_preference == (if opts.low_power {
            PowerPreference::LowPower
        } else {
            PowerPreference::HighPerformance
        }),
        req.force_fallback == opts.fallback,
        req.compatible_with_surface,
{
    AdapterRequest {
        power_preference: if opts.low_power {
            PowerPreference::LowPower
        } else {
            PowerPreference::HighPerformance
        },
        force_fallback: opts.fallback,
        compatible_with_surface: true,
    }
}

/// What the device request must carry: no optional GPU features and the
/// default limit set.
#[derive(Clone, Copy, Debug, PartialEq, Eq, Structural)]
pub struct DeviceRequest {
    pub required_features_empty: bool,
    pub default_limits: bool,
}

/// Derive the device request: default features and limits, always.
pub fn device_request() -> (req: DeviceRequest)
    ensures
        req.required_features_empty,
        req.default_limits,
{
    DeviceRequest { required_features_empty: true, default_limits: true }
}

/// The unrecoverable ways startup negotiation can fail. Each aborts the
/// process; none is retried, since each indicates missing capability rather
/// than transient state.
#[derive(Clone, Copy, Debug, PartialEq, Eq, Structural)]
pub enum SetupError {
    SurfaceCreation,
    NoAdapter,
    DeviceCreation,
}

/// The diagnostic owed for each fatal setup failure.
pub fn setup_diagnostic(err: SetupError) -> (msg: String)
    ensures
        err == SetupError::SurfaceCreation ==> msg@ == "Failed to create wgpu surface"@,
        err == SetupError::NoAdapter ==> msg@
            == "No suitable GPU adapters found. Try --fallback-gpu or update Vulkan drivers."@,
        err == SetupError::DeviceCreation ==> msg@ == "Failed to create device"@,
{
    match err {
        SetupError::SurfaceCreation => "Failed to create wgpu surface".to_owned(),
        SetupError::NoAdapter => {
            "No suitable GPU adapters found. Try --fallback-gpu or update Vulkan drivers.".to_owned()
        },
        SetupError::DeviceCreation => "Failed to create device".to_owned(),
    }
}

} // verus!
