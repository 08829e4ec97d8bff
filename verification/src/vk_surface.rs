//! The compute ray tracer's surface: picking a format for its swap chain.

use vstd::prelude::*;
use crate::text::owned;
use crate::vk::SurfaceFormat;

verus! {

/// The requested format and color space when the surface offers that pair,
/// else the surface's first format. `available` is what the surface lists,
/// `None` when the query failed; a surface without formats is an error.
pub fn find_suitable_swap_chain_surface_format(
    available: &Option<Vec<SurfaceFormat>>,
    swapchain_image_format: i32,
    color_space: i32,
) -> (res: Result<SurfaceFormat, String>)
    ensures
        available is None ==> (res matches Err(msg) && msg@ == "failed to get surface formats for physical device"@),
        available matches Some(formats) ==> {
            let wanted = SurfaceFormat { format: swapchain_image_format, color_space };
            &&& formats@.contains(wanted) ==> res == Ok::<SurfaceFormat, String>(wanted)
            &&& !formats@.contains(wanted) && formats.len() > 0 ==> res == Ok::<SurfaceFormat, String>(formats@[0])
            &&& formats.len() == 0 ==> (res matches Err(msg) && msg@ == "failed to find any surface format"@)
        },
{
    let available_formats = match available {
        None => return Err(owned("failed to get surface formats for physical device")),
        Some(formats) => formats,
    };
    let mut i: usize = 0;
    #[verifier::loop_isolation(false)]
    while i < available_formats.len()
        invariant
            i <= available_formats.len(),
            forall|j: int| 0 <= j < i ==> available_formats@[j] != (SurfaceFormat { format: swapchain_image_format, color_space }),
        decreases available_formats.len() - i,
    {
        let available_format = available_formats[i];
        if available_format.format == swapchain_image_format && available_format.color_space == color_space {
            return Ok(available_format);
        }
        i = i + 1;
    }
    if available_formats.len() > 0 {
        Ok(available_formats[0])
    } else {
        Err(owned("failed to find any surface format"))
    }
}

} // verus!
