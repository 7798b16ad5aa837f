use vstd::prelude::*;

verus! {

/// The failures that the engine reports to its caller.
#[derive(Clone, Copy, Debug, PartialEq, Eq, Structural)]
pub enum EngineError {
    /// The grid, or the surface it is drawn on, does not fit within the
    /// device's limits. Fatal to the session.
    ResourceExhausted,
    /// The surface that frames are drawn on was lost and must be configured
    /// again; the next frame proceeds as usual.
    RecoverableSurfaceLoss,
    /// A single-cell edit named a cell outside the grid.
    InvalidAddress,
}

/// Why the surface that a frame is drawn on could not be acquired.
#[derive(Clone, Copy, Debug, PartialEq, Eq, Structural)]
pub enum SurfaceFault {
    /// Acquiring the surface took too long.
    Timeout,
    /// The surface changed underneath and must be configured again.
    Outdated,
    /// The surface was lost, for example when the display was reconfigured.
    Lost,
    /// The device has no memory left.
    OutOfMemory,
}

/// The error that a failed frame reports: `RecoverableSurfaceLoss` where the
/// surface was lost and must be configured again, `ResourceExhausted` where
/// the device is out of memory, and none where the frame is only skipped.
pub fn surface_fault_error(fault: SurfaceFault) -> (r: Option<EngineError>)
    ensures
        r == match fault {
            SurfaceFault::Lost => Some(EngineError::RecoverableSurfaceLoss),
            SurfaceFault::OutOfMemory => Some(EngineError::ResourceExhausted),
            SurfaceFault::Timeout | SurfaceFault::Outdated => None,
        },
{
    match fault {
        SurfaceFault::Lost => Some(EngineError::RecoverableSurfaceLoss),
        SurfaceFault::OutOfMemory => Some(EngineError::ResourceExhausted),
        SurfaceFault::Timeout | SurfaceFault::Outdated => None,
    }
}

} // verus!
