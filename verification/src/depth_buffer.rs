//! The depth buffer's format.

use vstd::prelude::*;
use crate::text::owned;
use crate::vk::{FormatProperties, has_flags, contains_flags, IMAGE_TILING_LINEAR, IMAGE_TILING_OPTIMAL};
use crate::vk::{FORMAT_D32_SFLOAT, FORMAT_D32_SFLOAT_S8_UINT, FORMAT_D24_UNORM_S8_UINT, FORMAT_FEATURE_DEPTH_STENCIL_ATTACHMENT};

verus! {

/// The depth formats that also hold a stencil component.
pub open spec fn spec_has_stencil_component(format: i32) -> bool {
    format == FORMAT_D32_SFLOAT_S8_UINT || format == FORMAT_D24_UNORM_S8_UINT
}

/// Whether a depth format also holds a stencil component.
#[verifier::when_used_as_spec(spec_has_stencil_component)]
pub fn has_stencil_component(format: i32) -> (res: bool)
    ensures
        res == spec_has_stencil_component(format),
{
    format == FORMAT_D32_SFLOAT_S8_UINT || format == FORMAT_D24_UNORM_S8_UINT
}

/// The format supports `features` with the given tiling.
pub open spec fn format_supports(properties: FormatProperties, tiling: i32, features: u32) -> bool {
    ||| tiling == IMAGE_TILING_LINEAR && has_flags(properties.linear_tiling_features, features)
    ||| tiling == IMAGE_TILING_OPTIMAL && has_flags(properties.optimal_tiling_features, features)
}

/// `k` is the first candidate that supports the features.
pub open spec fn is_first_supported(properties: Seq<FormatProperties>, tiling: i32, features: u32, k: int) -> bool {
    &&& 0 <= k < properties.len()
    &&& format_supports(properties[k], tiling, features)
    &&& forall|j: int| 0 <= j < k ==> !format_supports(#[trigger] properties[j], tiling, features)
}

/// The first candidate format that supports `features` with `tiling`.
/// `properties[i]` is what the device reports for `candidates[i]`.
pub fn find_support_format(
    candidates: &Vec<i32>,
    properties: &Vec<FormatProperties>,
    tiling: i32,
    features: u32,
) -> (res: Result<i32, String>)
    requires
        properties.len() == candidates.len(),
    ensures
        forall|k: int| is_first_supported(properties@, tiling, features, k) ==> res == Ok::<i32, String>(candidates@[k]),
        (forall|k: int| 0 <= k < properties.len() ==> !format_supports(#[trigger] properties@[k], tiling, features))
            ==> (res matches Err(msg) && msg@ == "failed to find supported format"@),
{
    let mut i: usize = 0;
    while i < candidates.len()
        invariant
            properties.len() == candidates.len(),
            i <= candidates.len(),
            forall|j: int| 0 <= j < i ==> !format_supports(#[trigger] properties@[j], tiling, features),
        decreases candidates.len() - i,
    {
        let props = properties[i];
        let linear_tiling = tiling == IMAGE_TILING_LINEAR && contains_flags(props.linear_tiling_features, features);
        let optimal_tiling = tiling == IMAGE_TILING_OPTIMAL && contains_flags(props.optimal_tiling_features, features);
        if linear_tiling || optimal_tiling {
            proof {
                assert forall|k: int| is_first_supported(properties@, tiling, features, k) implies k == i by {
                    if k < i {
                        assert(!format_supports(properties@[k], tiling, features));
                    } else if k > i {
                        assert(!format_supports(properties@[i as int], tiling, features));
                    }
                }
            }
            return Ok(candidates[i]);
        }
        i = i + 1;
    }
    proof {
        assert forall|k: int| !is_first_supported(properties@, tiling, features, k) by {
            if 0 <= k < properties.len() {
                assert(!format_supports(properties@[k], tiling, features));
            }
        }
    }
    Err(owned("failed to find supported format"))
}

/// The depth formats tried, in order of preference.
pub open spec fn depth_candidates() -> Seq<i32> {
    seq![FORMAT_D32_SFLOAT, FORMAT_D32_SFLOAT_S8_UINT, FORMAT_D24_UNORM_S8_UINT]
}

/// The depth buffer's format: the first of 32-bit float depth, 32-bit float
/// depth with stencil, and 24-bit depth with stencil that supports being a
/// depth-stencil attachment with optimal tiling. `properties[i]` is what the
/// device reports for the `i`-th of these formats.
pub fn find_depth_format(properties: &Vec<FormatProperties>) -> (res: Result<i32, String>)
    requires
        properties.len() == 3,
    ensures
        forall|k: int| is_first_supported(properties@, IMAGE_TILING_OPTIMAL, FORMAT_FEATURE_DEPTH_STENCIL_ATTACHMENT, k)
            ==> res == Ok::<i32, String>(depth_candidates()[k]),
        (forall|k: int| 0 <= k < 3
            ==> !format_supports(#[trigger] properties@[k], IMAGE_TILING_OPTIMAL, FORMAT_FEATURE_DEPTH_STENCIL_ATTACHMENT))
            ==> (res matches Err(msg) && msg@ == "failed to find supported format"@),
        format_supports(properties@[0], IMAGE_TILING_OPTIMAL, FORMAT_FEATURE_DEPTH_STENCIL_ATTACHMENT)
            ==> res == Ok::<i32, String>(FORMAT_D32_SFLOAT),
        !format_supports(properties@[0], IMAGE_TILING_OPTIMAL, FORMAT_FEATURE_DEPTH_STENCIL_ATTACHMENT)
            && format_supports(properties@[1], IMAGE_TILING_OPTIMAL, FORMAT_FEATURE_DEPTH_STENCIL_ATTACHMENT)
            ==> res == Ok::<i32, String>(FORMAT_D32_SFLOAT_S8_UINT),
        !format_supports(properties@[0], IMAGE_TILING_OPTIMAL, FORMAT_FEATURE_DEPTH_STENCIL_ATTACHMENT)
            && !format_supports(properties@[1], IMAGE_TILING_OPTIMAL, FORMAT_FEATURE_DEPTH_STENCIL_ATTACHMENT)
            && format_supports(properties@[2], IMAGE_TILING_OPTIMAL, FORMAT_FEATURE_DEPTH_STENCIL_ATTACHMENT)
            ==> res == Ok::<i32, String>(FORMAT_D24_UNORM_S8_UINT),
{
    proof {
        lemma_depth_format_preference(properties@);
    }
    let candidates: Vec<i32> = vec![FORMAT_D32_SFLOAT, FORMAT_D32_SFLOAT_S8_UINT, FORMAT_D24_UNORM_S8_UINT];
    assert(candidates@ == depth_candidates());
    find_support_format(&candidates, properties, IMAGE_TILING_OPTIMAL, FORMAT_FEATURE_DEPTH_STENCIL_ATTACHMENT)
}

/// The depth format is picked by preference among the formats the device
/// supports as an optimally tiled depth-stencil attachment, each judged by
/// its own reported properties: 32-bit float depth first, then 32-bit float
/// depth with stencil, then 24-bit depth with stencil.
pub proof fn lemma_depth_format_preference(properties: Seq<FormatProperties>)
    requires
        properties.len() == 3,
    ensures
        depth_candidates() == seq![FORMAT_D32_SFLOAT, FORMAT_D32_SFLOAT_S8_UINT, FORMAT_D24_UNORM_S8_UINT],
        format_supports(properties[0], IMAGE_TILING_OPTIMAL, FORMAT_FEATURE_DEPTH_STENCIL_ATTACHMENT)
            ==> is_first_supported(properties, IMAGE_TILING_OPTIMAL, FORMAT_FEATURE_DEPTH_STENCIL_ATTACHMENT, 0),
        !format_supports(properties[0], IMAGE_TILING_OPTIMAL, FORMAT_FEATURE_DEPTH_STENCIL_ATTACHMENT)
            && format_supports(properties[1], IMAGE_TILING_OPTIMAL, FORMAT_FEATURE_DEPTH_STENCIL_ATTACHMENT)
            ==> is_first_supported(properties, IMAGE_TILING_OPTIMAL, FORMAT_FEATURE_DEPTH_STENCIL_ATTACHMENT, 1),
        !format_supports(properties[0], IMAGE_TILING_OPTIMAL, FORMAT_FEATURE_DEPTH_STENCIL_ATTACHMENT)
            && !format_supports(properties[1], IMAGE_TILING_OPTIMAL, FORMAT_FEATURE_DEPTH_STENCIL_ATTACHMENT)
            && format_supports(properties[2], IMAGE_TILING_OPTIMAL, FORMAT_FEATURE_DEPTH_STENCIL_ATTACHMENT)
            ==> is_first_supported(properties, IMAGE_TILING_OPTIMAL, FORMAT_FEATURE_DEPTH_STENCIL_ATTACHMENT, 2),
        forall|k: int| is_first_supported(properties, IMAGE_TILING_OPTIMAL, FORMAT_FEATURE_DEPTH_STENCIL_ATTACHMENT, k)
            ==> format_supports(properties[k], IMAGE_TILING_OPTIMAL, FORMAT_FEATURE_DEPTH_STENCIL_ATTACHMENT),
{
    assert(depth_candidates() =~= seq![FORMAT_D32_SFLOAT, FORMAT_D32_SFLOAT_S8_UINT, FORMAT_D24_UNORM_S8_UINT]);
}

} // verus!
