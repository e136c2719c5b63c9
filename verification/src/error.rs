use vstd::prelude::*;

verus! {

/// Failures surfaced by context initialization and by surface
/// (re)configuration. Initialization returns one of the first three;
/// per-frame resizing reports `SurfaceReconfigurationFailed` instead of
/// silently skipping the reconfiguration.
#[derive(Clone, Copy, Debug, PartialEq, Eq, Structural)]
pub enum ContextError {
    /// The window handle was not usable for the selected backend.
    SurfaceCreationFailed,
    /// No adapter compatible with the surface (or a surface the adapter
    /// reports no capabilities for) could be found.
    NoCompatibleAdapter,
    /// The backend could not satisfy the device request with the negotiated
    /// limits.
    DeviceRequestFailed,
    /// The surface could not be reconfigured: the target area would have a
    /// zero dimension.
    SurfaceReconfigurationFailed,
}

} // verus!
