//! How the compute ray tracer configures its swap chain.

use vstd::prelude::*;
use crate::text::owned;
use crate::vk::{SurfaceFormat, SurfaceCapabilities, Extent2D, has_flags, contains_flags};
use crate::vk::{PRESENT_MODE_MAILBOX, PRESENT_MODE_IMMEDIATE, PRESENT_MODE_FIFO, FORMAT_B8G8R8A8_UNORM};
use crate::vk::{SURFACE_TRANSFORM_IDENTITY, COMPOSITE_ALPHA_OPAQUE, COMPOSITE_ALPHA_PRE_MULTIPLIED};
use crate::vk::{COMPOSITE_ALPHA_POST_MULTIPLIED, COMPOSITE_ALPHA_INHERIT};
use crate::vk::{IMAGE_USAGE_COLOR_ATTACHMENT, IMAGE_USAGE_TRANSFER_SRC, IMAGE_USAGE_TRANSFER_DST};

verus! {

/// Mailbox when offered, else immediate when offered, else FIFO.
pub open spec fn preferred_present_mode(present_modes: Seq<i32>) -> i32 {
    if present_modes.contains(PRESENT_MODE_MAILBOX) {
        PRESENT_MODE_MAILBOX
    } else if present_modes.contains(PRESENT_MODE_IMMEDIATE) {
        PRESENT_MODE_IMMEDIATE
    } else {
        PRESENT_MODE_FIFO
    }
}

/// Picks the present mode: mailbox if the surface offers it, otherwise
/// immediate if it offers that, otherwise FIFO.
pub fn choose_swapchain_present_mode(present_modes: &Vec<i32>) -> (res: i32)
    ensures
        res == preferred_present_mode(present_modes@),
{
    let mut present_mode = PRESENT_MODE_FIFO;
    let mut i: usize = 0;
    while i < present_modes.len()
        invariant
            i <= present_modes.len(),
            forall|j: int| 0 <= j < i ==> present_modes@[j] != PRESENT_MODE_MAILBOX,
            present_mode == if present_modes@.take(i as int).contains(PRESENT_MODE_IMMEDIATE) {
                PRESENT_MODE_IMMEDIATE
            } else {
                PRESENT_MODE_FIFO
            },
        decreases present_modes.len() - i,
    {
        let current_present_mode = present_modes[i];
        if current_present_mode == PRESENT_MODE_MAILBOX {
            assert(present_modes@[i as int] == PRESENT_MODE_MAILBOX);
            return current_present_mode;
        }
        if present_mode != PRESENT_MODE_MAILBOX && current_present_mode == PRESENT_MODE_IMMEDIATE {
            present_mode = PRESENT_MODE_IMMEDIATE;
        }
        proof {
            let before = present_modes@.take(i as int);
            let after = present_modes@.take(i + 1);
            assert(after == before.push(current_present_mode));
            if before.contains(PRESENT_MODE_IMMEDIATE) {
                let k = choose|k: int| 0 <= k < before.len() && before[k] == PRESENT_MODE_IMMEDIATE;
                assert(after[k] == PRESENT_MODE_IMMEDIATE);
            }
            if current_present_mode == PRESENT_MODE_IMMEDIATE {
                assert(after[i as int] == PRESENT_MODE_IMMEDIATE);
            }
            if after.contains(PRESENT_MODE_IMMEDIATE) && current_present_mode != PRESENT_MODE_IMMEDIATE {
                let k = choose|k: int| 0 <= k < after.len() && after[k] == PRESENT_MODE_IMMEDIATE;
                assert(before[k] == PRESENT_MODE_IMMEDIATE);
            }
        }
        i = i + 1;
    }
    proof {
        assert(present_modes@.take(i as int) == present_modes@);
        if present_modes@.contains(PRESENT_MODE_MAILBOX) {
            let k = choose|k: int| 0 <= k < present_modes@.len() && present_modes@[k] == PRESENT_MODE_MAILBOX;
            assert(present_modes@[k] != PRESENT_MODE_MAILBOX);
        }
    }
    present_mode
}

/// `k` is the first format in `formats` that is 8-bit BGRA UNORM.
pub open spec fn is_first_bgra_unorm(formats: Seq<SurfaceFormat>, k: int) -> bool {
    &&& 0 <= k < formats.len()
    &&& formats[k].format == FORMAT_B8G8R8A8_UNORM
    &&& forall|j: int| 0 <= j < k ==> formats[j].format != FORMAT_B8G8R8A8_UNORM
}

/// The surface format the swap chain uses: the first 8-bit BGRA UNORM format,
/// or the first format when there is none; no format at all is an error.
pub fn choose_swapchain_format(surface_formats: &Vec<SurfaceFormat>) -> (res: Result<SurfaceFormat, String>)
    ensures
        surface_formats.len() == 0 <==> res is Err,
        res matches Err(msg) ==> msg@ == "failed to find suitable surface format"@,
        res matches Ok(f) ==> {
            ||| exists|k: int| is_first_bgra_unorm(surface_formats@, k) && f == surface_formats@[k]
            ||| (forall|j: int| 0 <= j < surface_formats.len() ==> surface_formats@[j].format != FORMAT_B8G8R8A8_UNORM)
                && f == surface_formats@[0]
        },
{
    if surface_formats.len() == 0 {
        return Err(owned("failed to find suitable surface format"));
    }
    let mut i: usize = 0;
    while i < surface_formats.len()
        invariant
            i <= surface_formats.len(),
            forall|j: int| 0 <= j < i ==> surface_formats@[j].format != FORMAT_B8G8R8A8_UNORM,
        decreases surface_formats.len() - i,
    {
        if surface_formats[i].format == FORMAT_B8G8R8A8_UNORM {
            assert(is_first_bgra_unorm(surface_formats@, i as int));
            return Ok(surface_formats[i]);
        }
        i = i + 1;
    }
    Ok(surface_formats[0])
}

/// The identity transform when the surface supports it, its current
/// transform otherwise.
pub fn choose_swapchain_transform(surface_capabilities: &SurfaceCapabilities) -> (res: u32)
    ensures
        res == if has_flags(surface_capabilities.supported_transforms, SURFACE_TRANSFORM_IDENTITY) {
            SURFACE_TRANSFORM_IDENTITY
        } else {
            surface_capabilities.current_transform
        },
{
    let mut transform = SURFACE_TRANSFORM_IDENTITY;
    if !contains_flags(surface_capabilities.supported_transforms, SURFACE_TRANSFORM_IDENTITY) {
        transform = surface_capabilities.current_transform;
    }
    transform
}

/// The composite alpha mode. The candidates are tried in order, but each try
/// tests the mode chosen so far, which starts as opaque and only changes to
/// the candidate under test; so the choice is always opaque.
pub fn choose_swapchain_composite(surface_capabilities: &SurfaceCapabilities) -> (res: u32)
    ensures
        res == COMPOSITE_ALPHA_OPAQUE,
{
    let mut composite_flags = COMPOSITE_ALPHA_OPAQUE;
    let candidates: Vec<u32> = vec![
        COMPOSITE_ALPHA_OPAQUE,
        COMPOSITE_ALPHA_PRE_MULTIPLIED,
        COMPOSITE_ALPHA_POST_MULTIPLIED,
        COMPOSITE_ALPHA_INHERIT,
    ];
    let mut i: usize = 0;
    #[verifier::loop_isolation(false)]
    while i < candidates.len()
        invariant
            i <= candidates.len(),
            composite_flags == COMPOSITE_ALPHA_OPAQUE,
            i > 0 ==> !has_flags(surface_capabilities.supported_composite_alpha, COMPOSITE_ALPHA_OPAQUE),
        decreases candidates.len() - i,
    {
        if contains_flags(surface_capabilities.supported_composite_alpha, composite_flags) {
            composite_flags = candidates[i];
            break;
        }
        i = i + 1;
    }
    composite_flags
}

/// The extent the surface reports, or the requested size when the surface
/// leaves it to the swap chain (a current width of `u32::MAX`).
pub open spec fn requested_extent(capabilities: SurfaceCapabilities, width: u32, height: u32) -> Extent2D {
    if capabilities.current_extent.width == u32::MAX {
        Extent2D { width, height }
    } else {
        capabilities.current_extent
    }
}

/// The swap chain's extent.
pub fn swapchain_extent(surface_capabilities: &SurfaceCapabilities, width: u32, height: u32) -> (res: Extent2D)
    ensures
        res == requested_extent(*surface_capabilities, width, height),
{
    if surface_capabilities.current_extent.width == u32::MAX {
        Extent2D { width, height }
    } else {
        surface_capabilities.current_extent
    }
}

/// One image more than the minimum, unless that passes a maximum the surface
/// sets (a maximum of zero sets none).
pub open spec fn desired_image_count(capabilities: SurfaceCapabilities) -> int {
    if capabilities.min_image_count + 1 > capabilities.max_image_count && capabilities.max_image_count > 0 {
        capabilities.max_image_count as int
    } else {
        capabilities.min_image_count + 1
    }
}

/// The number of images to ask the swap chain for.
pub fn swapchain_image_count(surface_capabilities: &SurfaceCapabilities) -> (res: u32)
    requires
        surface_capabilities.min_image_count < u32::MAX,
    ensures
        res == desired_image_count(*surface_capabilities),
{
    if surface_capabilities.min_image_count + 1 > surface_capabilities.max_image_count
        && surface_capabilities.max_image_count > 0 {
        surface_capabilities.max_image_count
    } else {
        surface_capabilities.min_image_count + 1
    }
}

/// Color attachment, plus transfer source and destination where the surface
/// supports them.
pub open spec fn swapchain_usage(supported: u32) -> u32 {
    IMAGE_USAGE_COLOR_ATTACHMENT
        | (if has_flags(supported, IMAGE_USAGE_TRANSFER_SRC) { IMAGE_USAGE_TRANSFER_SRC } else { 0 })
        | (if has_flags(supported, IMAGE_USAGE_TRANSFER_DST) { IMAGE_USAGE_TRANSFER_DST } else { 0 })
}

/// The usage of the swap chain's images.
pub fn swapchain_image_usage(surface_capabilities: &SurfaceCapabilities) -> (res: u32)
    ensures
        res == swapchain_usage(surface_capabilities.supported_usage_flags),
{
    let mut image_usage = IMAGE_USAGE_COLOR_ATTACHMENT;
    let src: u32 = if contains_flags(surface_capabilities.supported_usage_flags, IMAGE_USAGE_TRANSFER_SRC) {
        IMAGE_USAGE_TRANSFER_SRC
    } else {
        0
    };
    let dst: u32 = if contains_flags(surface_capabilities.supported_usage_flags, IMAGE_USAGE_TRANSFER_DST) {
        IMAGE_USAGE_TRANSFER_DST
    } else {
        0
    };
    image_usage = image_usage | src;
    image_usage = image_usage | dst;
    image_usage
}

/// What the swap chain is created with, beyond the surface format and the
/// present mode chosen before.
#[derive(Clone, Copy, Debug, PartialEq, Eq, Structural)]
pub struct SwapchainSettings {
    pub pre_transform: u32,
    pub composite_alpha: u32,
    pub extent: Extent2D,
    pub min_image_count: u32,
    pub image_usage: u32,
}

/// The settings the swap chain is created with for a surface, given the
/// window size to use when the surface leaves the extent open.
pub fn swapchain_settings(surface_capabilities: &SurfaceCapabilities, width: u32, height: u32) -> (res: SwapchainSettings)
    requires
        surface_capabilities.min_image_count < u32::MAX,
    ensures
        res.pre_transform == if has_flags(surface_capabilities.supported_transforms, SURFACE_TRANSFORM_IDENTITY) {
            SURFACE_TRANSFORM_IDENTITY
        } else {
            surface_capabilities.current_transform
        },
        res.composite_alpha == COMPOSITE_ALPHA_OPAQUE,
        res.extent == requested_extent(*surface_capabilities, width, height),
        res.min_image_count == desired_image_count(*surface_capabilities),
        res.image_usage == swapchain_usage(surface_capabilities.supported_usage_flags),
{
    SwapchainSettings {
        pre_transform: choose_swapchain_transform(surface_capabilities),
        composite_alpha: choose_swapchain_composite(surface_capabilities),
        extent: swapchain_extent(surface_capabilities, width, height),
        min_image_count: swapchain_image_count(surface_capabilities),
        image_usage: swapchain_image_usage(surface_capabilities),
    }
}

/// The images of a new swap chain. `queried` is what the driver listed,
/// `None` when the query failed; a swap chain without images is an error.
pub fn get_swapchain_images(queried: Option<Vec<u64>>) -> (res: Result<Vec<u64>, String>)
    ensures
        queried is None ==> (res matches Err(msg) && msg@ == "failed to get images swapchain"@),
        queried matches Some(images) ==> (images.len() == 0 ==> (res matches Err(msg)
            && msg@ == "failed to get any images swapchain"@)),
        queried matches Some(images) ==> (images.len() > 0 ==> (res matches Ok(v) && v@ == images@)),
{
    match queried {
        None => Err(owned("failed to get images swapchain")),
        Some(images) => {
            if images.len() == 0 {
                Err(owned("failed to get any images swapchain"))
            } else {
                Ok(images)
            }
        },
    }
}

/// The present mode chosen is one the surface offers, or FIFO, which every
/// surface supports.
pub proof fn lemma_present_mode_offered_or_fifo(present_modes: Seq<i32>)
    ensures
        present_modes.contains(preferred_present_mode(present_modes))
            || preferred_present_mode(present_modes) == PRESENT_MODE_FIFO,
{
}

/// The present mode chosen goes by what the surface offers, wherever it
/// stands in the list: mailbox whenever it is offered, else immediate
/// whenever that is offered, else FIFO.
pub proof fn lemma_present_mode_preference(present_modes: Seq<i32>)
    ensures
        present_modes.contains(PRESENT_MODE_MAILBOX) ==> preferred_present_mode(present_modes) == PRESENT_MODE_MAILBOX,
        !present_modes.contains(PRESENT_MODE_MAILBOX) && present_modes.contains(PRESENT_MODE_IMMEDIATE)
            ==> preferred_present_mode(present_modes) == PRESENT_MODE_IMMEDIATE,
        !present_modes.contains(PRESENT_MODE_MAILBOX) && !present_modes.contains(PRESENT_MODE_IMMEDIATE)
            ==> preferred_present_mode(present_modes) == PRESENT_MODE_FIFO,
        forall|i: int| 0 <= i < present_modes.len() && present_modes[i] == PRESENT_MODE_MAILBOX
            ==> preferred_present_mode(present_modes) == PRESENT_MODE_MAILBOX,
{
    assert forall|i: int| 0 <= i < present_modes.len() && present_modes[i] == PRESENT_MODE_MAILBOX
        implies preferred_present_mode(present_modes) == PRESENT_MODE_MAILBOX by {
        assert(present_modes.contains(PRESENT_MODE_MAILBOX));
    }
}

/// The image count asked for is more than the minimum unless a maximum stops
/// it, and never over a maximum the surface sets.
pub proof fn lemma_desired_image_count_within_limits(capabilities: SurfaceCapabilities)
    ensures
        capabilities.max_image_count > 0 ==> desired_image_count(capabilities) <= capabilities.max_image_count,
        capabilities.max_image_count == 0 || capabilities.min_image_count < capabilities.max_image_count
            ==> desired_image_count(capabilities) == capabilities.min_image_count + 1,
{
}

} // verus!
