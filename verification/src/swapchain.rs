//! The swap chain's configuration, chosen from what the surface supports.

use vstd::prelude::*;
use crate::text::owned;
use crate::surface::{SurfaceError, surface_error_text};
use crate::vk::{SurfaceCapabilities, SurfaceFormat, Extent2D};
use crate::vk::{FORMAT_UNDEFINED, FORMAT_R8G8B8_UNORM, COLOR_SPACE_SRGB_NONLINEAR};
use crate::vk::{PRESENT_MODE_IMMEDIATE, PRESENT_MODE_MAILBOX, PRESENT_MODE_FIFO, PRESENT_MODE_FIFO_RELAXED};
use crate::vk::{SHARING_MODE_CONCURRENT, SHARING_MODE_EXCLUSIVE, COMPOSITE_ALPHA_OPAQUE};
use crate::vk::{IMAGE_USAGE_COLOR_ATTACHMENT, IMAGE_USAGE_TRANSFER_DST};

verus! {

/// What the surface supports.
pub struct SupportDetails {
    pub capabilities: SurfaceCapabilities,
    pub formats: Vec<SurfaceFormat>,
    pub present_modes: Vec<i32>,
}

/// Gathers the answers of the three surface queries (capabilities, formats,
/// present modes). A failed formats or present-modes query means the surface
/// supports no swap chain; a failed capabilities query is reported as such.
pub fn query_swap_chain_support(
    capabilities: Result<SurfaceCapabilities, SurfaceError>,
    formats: Result<Vec<SurfaceFormat>, SurfaceError>,
    present_modes: Result<Vec<i32>, SurfaceError>,
) -> (res: Result<SupportDetails, String>)
    ensures
        capabilities matches Err(e) ==> (res matches Err(msg) && msg@ == surface_error_text(e)),
        capabilities is Ok && formats is Err ==> (res matches Err(msg) && msg@ == "empty swap chain support"@),
        capabilities is Ok && formats is Ok && present_modes is Err ==> (res matches Err(msg)
            && msg@ == "empty swap chain support"@),
        capabilities matches Ok(c) ==> (formats matches Ok(f) ==> (present_modes matches Ok(p) ==> (res matches Ok(details)
            && details.capabilities == c && details.formats@ == f@ && details.present_modes@ == p@))),
{
    let capabilities = match capabilities {
        Ok(c) => c,
        Err(e) => return Err(owned(e.message())),
    };
    let formats = match formats {
        Ok(f) => f,
        Err(_) => return Err(owned("empty swap chain support")),
    };
    let present_modes = match present_modes {
        Ok(p) => p,
        Err(_) => return Err(owned("empty swap chain support")),
    };
    Ok(SupportDetails { capabilities, formats, present_modes })
}

/// 8-bit RGB UNORM in the sRGB non-linear color space.
pub open spec fn rgb_srgb() -> SurfaceFormat {
    SurfaceFormat { format: FORMAT_R8G8B8_UNORM, color_space: COLOR_SPACE_SRGB_NONLINEAR }
}

/// A surface that lists only an undefined format accepts any, and gets 8-bit
/// RGB sRGB; any other surface must offer 8-bit RGB sRGB.
pub fn choose_swap_surface_format(formats: &Vec<SurfaceFormat>) -> (res: Result<SurfaceFormat, String>)
    ensures
        formats.len() == 1 && formats@[0].format == FORMAT_UNDEFINED ==> res == Ok::<SurfaceFormat, String>(rgb_srgb()),
        !(formats.len() == 1 && formats@[0].format == FORMAT_UNDEFINED) ==> {
            &&& formats@.contains(rgb_srgb()) ==> res == Ok::<SurfaceFormat, String>(rgb_srgb())
            &&& !formats@.contains(rgb_srgb()) ==> (res matches Err(msg) && msg@ == "found no suitable surface format"@)
        },
{
    if formats.len() == 1 && formats[0].format == FORMAT_UNDEFINED {
        return Ok(SurfaceFormat { format: FORMAT_R8G8B8_UNORM, color_space: COLOR_SPACE_SRGB_NONLINEAR });
    }
    let mut i: usize = 0;
    while i < formats.len()
        invariant
            i <= formats.len(),
            forall|j: int| 0 <= j < i ==> formats@[j] != rgb_srgb(),
        decreases formats.len() - i,
    {
        let format = formats[i];
        if format.format == FORMAT_R8G8B8_UNORM && format.color_space == COLOR_SPACE_SRGB_NONLINEAR {
            return Ok(format);
        }
        i = i + 1;
    }
    Err(owned("found no suitable surface format"))
}

/// The present modes a caller may ask for.
pub open spec fn is_known_present_mode(mode: i32) -> bool {
    mode == PRESENT_MODE_IMMEDIATE || mode == PRESENT_MODE_MAILBOX || mode == PRESENT_MODE_FIFO
        || mode == PRESENT_MODE_FIFO_RELAXED
}

/// The requested present mode when the surface offers it, FIFO when it does
/// not; a mode outside the four known ones is an error.
pub fn choose_swap_surface_present_mode(present_modes: &Vec<i32>, present_mode: i32) -> (res: Result<i32, String>)
    ensures
        !is_known_present_mode(present_mode) ==> (res matches Err(msg) && msg@ == "Unknown present mode"@),
        is_known_present_mode(present_mode) ==> res == Ok::<i32, String>(
            if present_modes@.contains(present_mode) { present_mode } else { PRESENT_MODE_FIFO }),
{
    if present_mode == PRESENT_MODE_IMMEDIATE || present_mode == PRESENT_MODE_MAILBOX
        || present_mode == PRESENT_MODE_FIFO || present_mode == PRESENT_MODE_FIFO_RELAXED {
        let mut i: usize = 0;
        while i < present_modes.len()
            invariant
                is_known_present_mode(present_mode),
                i <= present_modes.len(),
                forall|j: int| 0 <= j < i ==> present_modes@[j] != present_mode,
            decreases present_modes.len() - i,
        {
            if present_modes[i] == present_mode {
                return Ok(present_mode);
            }
            i = i + 1;
        }
        Ok(PRESENT_MODE_FIFO)
    } else {
        Err(owned("Unknown present mode"))
    }
}

/// The larger of `low` and the smaller of `high` and `value`.
pub open spec fn max_of_min(low: u32, high: u32, value: u32) -> u32 {
    let capped = if high < value { high } else { value };
    if low < capped { capped } else { low }
}

/// The extent the surface reports, or, when it leaves the extent to the swap
/// chain (a current width of `u32::MAX`), the framebuffer size capped by the
/// maximum extent and then raised to the minimum extent.
pub open spec fn chosen_extent(framebuffer_size: Extent2D, capabilities: SurfaceCapabilities) -> Extent2D {
    if capabilities.current_extent.width != u32::MAX {
        capabilities.current_extent
    } else {
        Extent2D {
            width: max_of_min(capabilities.min_image_extent.width, capabilities.max_image_extent.width, framebuffer_size.width),
            height: max_of_min(capabilities.min_image_extent.height, capabilities.max_image_extent.height, framebuffer_size.height),
        }
    }
}

/// The swap chain's extent for a window whose framebuffer has the given size.
pub fn choose_swap_extent(framebuffer_size: Extent2D, capabilities: &SurfaceCapabilities) -> (res: Extent2D)
    ensures
        res == chosen_extent(framebuffer_size, *capabilities),
{
    if capabilities.current_extent.width != u32::MAX {
        capabilities.current_extent
    } else {
        let mut actual_extent = framebuffer_size;
        let capped_width = if capabilities.max_image_extent.width < actual_extent.width {
            capabilities.max_image_extent.width
        } else {
            actual_extent.width
        };
        actual_extent.width = if capabilities.min_image_extent.width < capped_width {
            capped_width
        } else {
            capabilities.min_image_extent.width
        };
        let capped_height = if capabilities.max_image_extent.height < actual_extent.height {
            capabilities.max_image_extent.height
        } else {
            actual_extent.height
        };
        actual_extent.height = if capabilities.min_image_extent.height < capped_height {
            capped_height
        } else {
            capabilities.min_image_extent.height
        };
        actual_extent
    }
}

/// At least two images, and at least the minimum.
pub open spec fn at_least_two(min_image_count: u32) -> u32 {
    if min_image_count < 2 { 2 } else { min_image_count }
}

/// The image count asked for: at least two and the minimum, but no more than
/// a (nonzero) maximum.
pub open spec fn chosen_image_count(capabilities: SurfaceCapabilities) -> u32 {
    let image_count = at_least_two(capabilities.min_image_count);
    if capabilities.max_image_count > 0 && image_count > capabilities.max_image_count {
        capabilities.max_image_count
    } else {
        image_count
    }
}

/// The number of images to ask the swap chain for.
pub fn choose_image_count(capabilities: &SurfaceCapabilities) -> (res: u32)
    ensures
        res == chosen_image_count(*capabilities),
{
    let image_count = if capabilities.min_image_count < 2 { 2 } else { capabilities.min_image_count };
    if capabilities.max_image_count > 0 && image_count > capabilities.max_image_count {
        capabilities.max_image_count
    } else {
        image_count
    }
}

/// How the swap chain is created, beside the surface and old swap chain.
pub struct SwapchainConfig {
    pub surface_format: SurfaceFormat,
    /// The present mode the swap chain is created with.
    pub present_mode: i32,
    /// The present mode the swap chain records as its own: the one asked for.
    pub requested_present_mode: i32,
    pub extent: Extent2D,
    pub image_count: u32,
    pub min_image_count: u32,
    pub image_usage: u32,
    pub pre_transform: u32,
    pub composite_alpha: u32,
    pub image_sharing_mode: i32,
    pub queue_family_indices: Vec<u32>,
}

/// Configures the swap chain: its format, present mode, extent and image
/// count from what the surface supports; its images are shared between the
/// graphics and present families when those differ.
pub fn configure_swapchain(
    details: &SupportDetails,
    framebuffer_size: Extent2D,
    present_mode: i32,
    graphics_queue_index: u32,
    present_queue_index: u32,
) -> (res: Result<SwapchainConfig, String>)
    ensures
        match choose_format_outcome(details.formats@) {
            Err(m) => res matches Err(msg) && msg@ == m,
            Ok(format) => if !is_known_present_mode(present_mode) {
                res matches Err(msg) && msg@ == "Unknown present mode"@
            } else {
                res matches Ok(config) && {
                    &&& config.surface_format == format
                    &&& config.present_mode == (if details.present_modes@.contains(present_mode) { present_mode } else { PRESENT_MODE_FIFO })
                    &&& config.requested_present_mode == present_mode
                    &&& config.extent == chosen_extent(framebuffer_size, details.capabilities)
                    &&& config.image_count == chosen_image_count(details.capabilities)
                    &&& config.min_image_count == at_least_two(details.capabilities.min_image_count)
                    &&& config.image_usage == IMAGE_USAGE_COLOR_ATTACHMENT | IMAGE_USAGE_TRANSFER_DST
                    &&& config.pre_transform == details.capabilities.current_transform
                    &&& config.composite_alpha == COMPOSITE_ALPHA_OPAQUE
                    &&& graphics_queue_index != present_queue_index ==> {
                        &&& config.image_sharing_mode == SHARING_MODE_CONCURRENT
                        &&& config.queue_family_indices@ == seq![graphics_queue_index, present_queue_index]
                    }
                    &&& graphics_queue_index == present_queue_index ==> {
                        &&& config.image_sharing_mode == SHARING_MODE_EXCLUSIVE
                        &&& config.queue_family_indices@ == Seq::<u32>::empty()
                    }
                }
            },
        },
{
    let surface_format = choose_swap_surface_format(&details.formats)?;
    let actual_present_mode = choose_swap_surface_present_mode(&details.present_modes, present_mode)?;
    let extent = choose_swap_extent(framebuffer_size, &details.capabilities);
    let image_count = choose_image_count(&details.capabilities);
    let queue_family_indices: Vec<u32> = if graphics_queue_index != present_queue_index {
        vec![graphics_queue_index, present_queue_index]
    } else {
        Vec::new()
    };
    let image_sharing_mode = if graphics_queue_index != present_queue_index {
        SHARING_MODE_CONCURRENT
    } else {
        SHARING_MODE_EXCLUSIVE
    };
    let min_image_count = if details.capabilities.min_image_count < 2 { 2 } else { details.capabilities.min_image_count };
    Ok(SwapchainConfig {
        surface_format,
        present_mode: actual_present_mode,
        requested_present_mode: present_mode,
        extent,
        image_count,
        min_image_count,
        image_usage: IMAGE_USAGE_COLOR_ATTACHMENT | IMAGE_USAGE_TRANSFER_DST,
        pre_transform: details.capabilities.current_transform,
        composite_alpha: COMPOSITE_ALPHA_OPAQUE,
        image_sharing_mode,
        queue_family_indices,
    })
}

/// What `choose_swap_surface_format` gives, as a value.
pub open spec fn choose_format_outcome(formats: Seq<SurfaceFormat>) -> Result<SurfaceFormat, Seq<char>> {
    if formats.len() == 1 && formats[0].format == FORMAT_UNDEFINED {
        Ok(rgb_srgb())
    } else if formats.contains(rgb_srgb()) {
        Ok(rgb_srgb())
    } else {
        Err("found no suitable surface format"@)
    }
}

} // verus!

verus! {

/// When the swap chain picks its own extent and the surface's minimum extent
/// is not above its maximum, the extent lies between them.
pub proof fn lemma_chosen_extent_within_limits(framebuffer_size: Extent2D, capabilities: SurfaceCapabilities)
    requires
        capabilities.current_extent.width == u32::MAX,
        capabilities.min_image_extent.width <= capabilities.max_image_extent.width,
        capabilities.min_image_extent.height <= capabilities.max_image_extent.height,
    ensures
        capabilities.min_image_extent.width <= chosen_extent(framebuffer_size, capabilities).width
            <= capabilities.max_image_extent.width,
        capabilities.min_image_extent.height <= chosen_extent(framebuffer_size, capabilities).height
            <= capabilities.max_image_extent.height,
{
}

/// The image count asked for is at least two unless a maximum below two
/// stops it, and never over a maximum the surface sets.
pub proof fn lemma_chosen_image_count_within_limits(capabilities: SurfaceCapabilities)
    ensures
        capabilities.max_image_count > 0 ==> chosen_image_count(capabilities) <= capabilities.max_image_count,
        capabilities.max_image_count == 0 || capabilities.max_image_count >= 2 ==> chosen_image_count(capabilities) >= 2,
        capabilities.max_image_count == 0 || capabilities.max_image_count >= capabilities.min_image_count
            ==> chosen_image_count(capabilities) >= capabilities.min_image_count,
{
}

} // verus!
