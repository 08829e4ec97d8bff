//! Errors of the presentation surface.

use vstd::prelude::*;

verus! {

/// A failed surface operation.
#[derive(Clone, Copy, Debug, PartialEq, Eq, Structural)]
pub enum SurfaceError {
    SurfaceCreateError,
    PhysicalDeviceSurfaceSupportError,
    PhysicalDeviceSurfaceCapabilitiesError,
    PhysicalDeviceSurfaceFormatsError,
    PhysicalDeviceSurfacePresentModesError,
}

/// The text that describes each error.
pub open spec fn surface_error_text(error: SurfaceError) -> Seq<char> {
    match error {
        SurfaceError::SurfaceCreateError => "failed to create surface"@,
        SurfaceError::PhysicalDeviceSurfaceSupportError => "failed to get surface support for physical device"@,
        SurfaceError::PhysicalDeviceSurfaceCapabilitiesError => "failed to get surface capabilities for physical device"@,
        SurfaceError::PhysicalDeviceSurfaceFormatsError => "failed to get surface formats for physical device"@,
        SurfaceError::PhysicalDeviceSurfacePresentModesError => "failed to get surface present modes for physical device"@,
    }
}

impl SurfaceError {
    /// The text that describes the error (what it displays as).
    pub fn message(&self) -> (res: &'static str)
        ensures
            res@ == surface_error_text(*self),
    {
        match self {
            SurfaceError::SurfaceCreateError => "failed to create surface",
            SurfaceError::PhysicalDeviceSurfaceSupportError => "failed to get surface support for physical device",
            SurfaceError::PhysicalDeviceSurfaceCapabilitiesError => "failed to get surface capabilities for physical device",
            SurfaceError::PhysicalDeviceSurfaceFormatsError => "failed to get surface formats for physical device",
            SurfaceError::PhysicalDeviceSurfacePresentModesError => "failed to get surface present modes for physical device",
        }
    }
}

} // verus!
