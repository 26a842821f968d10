use vstd::prelude::*;

verus! {

/// Errors reported to callers.
///
/// Shared-memory unavailability is never reported through this type: the
/// negotiator degrades silently to the non-shared transport.
#[derive(Debug, Clone, Copy, PartialEq, Eq, Structural)]
pub enum MlxError {
    /// The window could not be created; carries the refused dimensions.
    WindowCreation { width: u32, height: u32 },
    /// A surface's backing buffer could not be allocated for these dimensions.
    SurfaceAllocation { width: u32, height: u32 },
    /// A pixel coordinate lay outside the surface's bounds.
    OutOfBounds,
    /// The handle names no live window (out of range or already destroyed).
    BadWindow,
    /// The window has no attached surface.
    NoSurface,
}

} // verus!
