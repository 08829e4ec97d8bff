//! What a surface supports for swap chains, and the choices made from it.

use vstd::prelude::*;
use crate::text::owned;
use crate::vk::{SurfaceCapabilities, SurfaceFormat, has_flags, contains_flags, SURFACE_TRANSFORM_IDENTITY};

verus! {

/// The surface's capabilities, formats and present modes.
pub struct VkSwapchainDetail {
    pub capabilities: SurfaceCapabilities,
    pub formats: Vec<SurfaceFormat>,
    pub present_modes: Vec<i32>,
}

impl VkSwapchainDetail {
    /// Gathers the answers of the three surface queries; `None` is a failed
    /// query. The first failure, in the order capabilities, formats, present
    /// modes, is the error.
    pub fn query_swapchain_support(
        capabilities: Option<SurfaceCapabilities>,
        formats: Option<Vec<SurfaceFormat>>,
        present_modes: Option<Vec<i32>>,
    ) -> (res: Result<VkSwapchainDetail, String>)
        ensures
            capabilities is None ==> (res matches Err(msg) && msg@ == "failed to query for surface capabilities."@),
            capabilities is Some && formats is None ==> (res matches Err(msg) && msg@ == "failed to query for surface formats."@),
            capabilities is Some && formats is Some && present_modes is None ==> (res matches Err(msg)
                && msg@ == "failed to query for surface present modes."@),
            capabilities is Some && formats is Some && present_modes is Some ==> (res matches Ok(detail) && {
                &&& detail.capabilities == capabilities->0
                &&& detail.formats@ == formats->0@
                &&& detail.present_modes@ == present_modes->0@
            }),
    {
        match capabilities {
            None => Err(owned("failed to query for surface capabilities.")),
            Some(capabilities) => match formats {
                None => Err(owned("failed to query for surface formats.")),
                Some(formats) => match present_modes {
                    None => Err(owned("failed to query for surface present modes.")),
                    Some(present_modes) => Ok(VkSwapchainDetail { capabilities, formats, present_modes }),
                },
            },
        }
    }

    /// The image count asked for: the surface's minimum, unless one more than
    /// the minimum is over a (nonzero) maximum, then the maximum.
    pub open spec fn spec_image_count(&self) -> u32 {
        if self.capabilities.max_image_count > 0 && self.capabilities.min_image_count + 1 > self.capabilities.max_image_count {
            self.capabilities.max_image_count
        } else {
            self.capabilities.min_image_count
        }
    }

    pub fn image_count(&self) -> (res: u32)
        requires
            self.capabilities.min_image_count < u32::MAX,
        ensures
            res == self.spec_image_count(),
    {
        if self.capabilities.max_image_count > 0 && (self.capabilities.min_image_count + 1) > self.capabilities.max_image_count {
            self.capabilities.max_image_count
        } else {
            self.capabilities.min_image_count
        }
    }

    /// The identity transform when the surface supports it, its current transform otherwise.
    pub fn pre_transform(&self) -> (res: u32)
        ensures
            res == if has_flags(self.capabilities.supported_transforms, SURFACE_TRANSFORM_IDENTITY) {
                SURFACE_TRANSFORM_IDENTITY
            } else {
                self.capabilities.current_transform
            },
    {
        if contains_flags(self.capabilities.supported_transforms, SURFACE_TRANSFORM_IDENTITY) {
            SURFACE_TRANSFORM_IDENTITY
        } else {
            self.capabilities.current_transform
        }
    }
}

} // verus!
