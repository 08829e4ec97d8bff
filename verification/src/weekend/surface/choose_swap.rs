//! Choices of format, present mode and extent for the swap chain.

use vstd::prelude::*;
use crate::vk::{SurfaceFormat, SurfaceCapabilities, Extent2D};
use crate::vk::{FORMAT_B8G8R8A8_SRGB, COLOR_SPACE_SRGB_NONLINEAR, PRESENT_MODE_MAILBOX, PRESENT_MODE_FIFO};
use crate::weekend::constants::{WINDOW_WIDTH, WINDOW_HEIGHT};

verus! {

/// `num::clamp` on `u32`: `min` below the range, `max` above it, the input
/// within it. `num` asserts `min <= max` (in debug builds).
#[verifier::external_body]
fn clamp_u32(input: u32, min: u32, max: u32) -> (res: u32)
    requires
        min <= max,
    ensures
        res == if input < min { min } else if input > max { max } else { input },
{
    num::clamp(input, min, max)
}

/// The preferred format: 8-bit BGRA in sRGB with the sRGB non-linear color space.
pub open spec fn preferred_surface_format() -> SurfaceFormat {
    SurfaceFormat { format: FORMAT_B8G8R8A8_SRGB, color_space: COLOR_SPACE_SRGB_NONLINEAR }
}

/// The preferred format when the surface offers it, its first format otherwise.
pub fn surface_format(available_formats: &Vec<SurfaceFormat>) -> (res: SurfaceFormat)
    requires
        available_formats.len() > 0,
    ensures
        available_formats@.contains(preferred_surface_format()) ==> res == preferred_surface_format(),
        !available_formats@.contains(preferred_surface_format()) ==> res == available_formats@[0],
{
    let mut i: usize = 0;
    while i < available_formats.len()
        invariant
            i <= available_formats.len(),
            forall|j: int| 0 <= j < i ==> available_formats@[j] != preferred_surface_format(),
        decreases available_formats.len() - i,
    {
        let available_format = available_formats[i];
        if available_format.format == FORMAT_B8G8R8A8_SRGB && available_format.color_space == COLOR_SPACE_SRGB_NONLINEAR {
            return available_format;
        }
        i = i + 1;
    }
    available_formats[0]
}

/// Mailbox when the surface offers it, FIFO (which every surface offers) otherwise.
pub fn present_mode(available_present_modes: &Vec<i32>) -> (res: i32)
    ensures
        res == if available_present_modes@.contains(PRESENT_MODE_MAILBOX) { PRESENT_MODE_MAILBOX } else { PRESENT_MODE_FIFO },
{
    let mut i: usize = 0;
    while i < available_present_modes.len()
        invariant
            i <= available_present_modes.len(),
            forall|j: int| 0 <= j < i ==> available_present_modes@[j] != PRESENT_MODE_MAILBOX,
        decreases available_present_modes.len() - i,
    {
        if available_present_modes[i] == PRESENT_MODE_MAILBOX {
            return PRESENT_MODE_MAILBOX;
        }
        i = i + 1;
    }
    PRESENT_MODE_FIFO
}

/// `value` brought into `[min, max]`.
pub open spec fn clamped(value: u32, min: u32, max: u32) -> u32 {
    if value < min { min } else if value > max { max } else { value }
}

/// The surface decides the extent unless its current width is the special
/// value `u32::MAX`; then the window size, brought within the allowed extents.
pub open spec fn swap_extent(capabilities: SurfaceCapabilities) -> Extent2D {
    if capabilities.current_extent.width == u32::MAX {
        Extent2D {
            width: clamped(WINDOW_WIDTH, capabilities.min_image_extent.width, capabilities.max_image_extent.width),
            height: clamped(WINDOW_HEIGHT, capabilities.min_image_extent.height, capabilities.max_image_extent.height),
        }
    } else {
        capabilities.current_extent
    }
}

/// The extent of the swap-chain images.
pub fn extent(capabilities: &SurfaceCapabilities) -> (res: Extent2D)
    requires
        capabilities.current_extent.width == u32::MAX ==> {
            &&& capabilities.min_image_extent.width <= capabilities.max_image_extent.width
            &&& capabilities.min_image_extent.height <= capabilities.max_image_extent.height
        },
    ensures
        res == swap_extent(*capabilities),
{
    if capabilities.current_extent.width == u32::MAX {
        Extent2D {
            width: clamp_u32(WINDOW_WIDTH, capabilities.min_image_extent.width, capabilities.max_image_extent.width),
            height: clamp_u32(WINDOW_HEIGHT, capabilities.min_image_extent.height, capabilities.max_image_extent.height),
        }
    } else {
        capabilities.current_extent
    }
}

} // verus!

verus! {

/// When the swap chain picks its own extent, the window size is brought
/// within the surface's allowed extents.
pub proof fn lemma_swap_extent_within_limits(capabilities: SurfaceCapabilities)
    requires
        capabilities.current_extent.width == u32::MAX,
        capabilities.min_image_extent.width <= capabilities.max_image_extent.width,
        capabilities.min_image_extent.height <= capabilities.max_image_extent.height,
    ensures
        capabilities.min_image_extent.width <= swap_extent(capabilities).width <= capabilities.max_image_extent.width,
        capabilities.min_image_extent.height <= swap_extent(capabilities).height <= capabilities.max_image_extent.height,
{
}

} // verus!
