//! Choosing the physical device and its queue families.

use vstd::prelude::*;
use std::collections::HashSet;
use vstd::utf8::decode_utf8;
use crate::text::{owned, outcome_is, c_string_bytes, vk_result_text, vk_result_to_string};
use crate::weekend::constants::{SWAPCHAIN_EXTENSION, vk_device_extensions};
use crate::weekend::debug::{all_nul_terminated, all_valid_utf8, names_contain, names_to_strings, strings_contain};
use crate::weekend::swapchain::VkSwapchainDetail;
use crate::vk::{QueueFamilyProperties, has_flags, contains_flags, QUEUE_GRAPHICS};
use crate::vk::{SAMPLE_COUNT_1, SAMPLE_COUNT_2, SAMPLE_COUNT_4, SAMPLE_COUNT_8};
use crate::vk::{SAMPLE_COUNT_16, SAMPLE_COUNT_32, SAMPLE_COUNT_64};
use crate::weekend::queue::QueueFamilyIndices;

verus! {

// ---------------------------------------------------------------------------
// Queue families
// ---------------------------------------------------------------------------

/// A family that can take graphics work: it has queues and the graphics bit.
pub open spec fn is_graphics_family(family: QueueFamilyProperties) -> bool {
    family.queue_count > 0 && has_flags(family.queue_flags, QUEUE_GRAPHICS)
}

/// A family that can present: it has queues and the surface query said yes.
pub open spec fn is_present_family(family: QueueFamilyProperties, support: Result<bool, i32>) -> bool {
    family.queue_count > 0 && support == Ok::<bool, i32>(true)
}

/// The last graphics family among the first `end` families.
pub open spec fn last_graphics_family(families: Seq<QueueFamilyProperties>, end: int) -> Option<u32>
    decreases end,
{
    if end <= 0 {
        None
    } else if is_graphics_family(families[end - 1]) {
        Some((end - 1) as u32)
    } else {
        last_graphics_family(families, end - 1)
    }
}

/// The last present family among the first `end` families.
pub open spec fn last_present_family(
    families: Seq<QueueFamilyProperties>,
    support: Seq<Result<bool, i32>>,
    end: int,
) -> Option<u32>
    decreases end,
{
    if end <= 0 {
        None
    } else if is_present_family(families[end - 1], support[end - 1]) {
        Some((end - 1) as u32)
    } else {
        last_present_family(families, support, end - 1)
    }
}

/// The search ends at family `k`: its surface query failed, or by then both a
/// graphics and a present family have been seen.
pub open spec fn search_ends_at(
    families: Seq<QueueFamilyProperties>,
    support: Seq<Result<bool, i32>>,
    k: int,
) -> bool {
    ||| support[k] is Err
    ||| (last_graphics_family(families, k + 1) is Some && last_present_family(families, support, k + 1) is Some)
}

/// `k` is the first family at which the search ends.
pub open spec fn is_search_end(families: Seq<QueueFamilyProperties>, support: Seq<Result<bool, i32>>, k: int) -> bool {
    &&& 0 <= k < families.len()
    &&& search_ends_at(families, support, k)
    &&& forall|j: int| 0 <= j < k ==> !search_ends_at(families, support, j)
}

/// How many families the search looks at.
pub open spec fn families_searched(families: Seq<QueueFamilyProperties>, support: Seq<Result<bool, i32>>) -> int {
    if exists|k: int| is_search_end(families, support, k) {
        (choose|k: int| is_search_end(families, support, k)) + 1
    } else {
        families.len() as int
    }
}

/// The outcome of the queue-family search: the error of the surface query
/// that failed, or the last graphics and the last present family among the
/// families searched.
pub open spec fn queue_family_search(
    families: Seq<QueueFamilyProperties>,
    support: Seq<Result<bool, i32>>,
) -> Result<QueueFamilyIndices, i32> {
    let n = families_searched(families, support);
    if n > 0 && support[n - 1] is Err {
        Err(support[n - 1]->Err_0)
    } else {
        Ok(QueueFamilyIndices {
            graphics_family: last_graphics_family(families, n),
            present_family: last_present_family(families, support, n),
        })
    }
}

proof fn lemma_search_end_unique(
    families: Seq<QueueFamilyProperties>,
    support: Seq<Result<bool, i32>>,
    k: int,
)
    requires
        is_search_end(families, support, k),
    ensures
        families_searched(families, support) == k + 1,
{
    let c = choose|c: int| is_search_end(families, support, c);
    assert(is_search_end(families, support, c));
    if c < k {
        assert(!search_ends_at(families, support, c));
    } else if c > k {
        assert(!search_ends_at(families, support, k));
    }
}

/// Finds the graphics and present queue families. The families are searched
/// in order and the search ends at the first family after which both kinds
/// have been seen; each kind is then the last family of that kind found.
/// `present_support[i]` is the outcome of the surface query for family `i`;
/// the first failed query met ends the search with its error.
pub fn find_queue_family(
    queue_families: &Vec<QueueFamilyProperties>,
    present_support: &Vec<Result<bool, i32>>,
) -> (res: Result<QueueFamilyIndices, String>)
    requires
        present_support.len() == queue_families.len(),
        queue_families.len() <= u32::MAX,
    ensures
        match queue_family_search(queue_families@, present_support@) {
            Ok(indices) => res == Ok::<QueueFamilyIndices, String>(indices),
            Err(code) => res matches Err(msg) && msg@ == vk_result_text(code),
        },
{
    let ghost fams = queue_families@;
    let ghost sup = present_support@;
    let mut indices = QueueFamilyIndices::new(None, None);
    let mut index: usize = 0;
    let len = queue_families.len();
    while index < len
        invariant
            fams == queue_families@,
            sup == present_support@,
            len == fams.len(),
            sup.len() == fams.len(),
            fams.len() <= u32::MAX,
            index <= len,
            forall|j: int| 0 <= j < index ==> !search_ends_at(fams, sup, j),
            indices.graphics_family == last_graphics_family(fams, index as int),
            indices.present_family == last_present_family(fams, sup, index as int),
        decreases len - index,
    {
        let family = queue_families[index];
        if family.queue_count > 0 && contains_flags(family.queue_flags, QUEUE_GRAPHICS) {
            indices.graphics_family = Some(index as u32);
        }
        match present_support[index] {
            Err(code) => {
                proof {
                    assert(is_search_end(fams, sup, index as int));
                    lemma_search_end_unique(fams, sup, index as int);
                }
                return Err(vk_result_to_string(code));
            },
            Ok(supported) => {
                if family.queue_count > 0 && supported {
                    indices.present_family = Some(index as u32);
                }
            },
        }
        assert(indices.graphics_family == last_graphics_family(fams, index + 1));
        assert(indices.present_family == last_present_family(fams, sup, index + 1));
        if indices.is_complete() {
            proof {
                assert(is_search_end(fams, sup, index as int));
                lemma_search_end_unique(fams, sup, index as int);
            }
            return Ok(indices);
        }
        index = index + 1;
    }
    assert(!exists|k: int| is_search_end(fams, sup, k));
    if len > 0 {
        assert(!search_ends_at(fams, sup, len - 1));
    }
    Ok(indices)
}

// ---------------------------------------------------------------------------
// Multisampling
// ---------------------------------------------------------------------------

/// The highest sample count among 64, 32, 16, 8, 4 and 2 whose bit is set in
/// `counts`, or 1 when none is.
pub open spec fn highest_sample_count(counts: u32) -> u32 {
    if has_flags(counts, SAMPLE_COUNT_64) {
        SAMPLE_COUNT_64
    } else if has_flags(counts, SAMPLE_COUNT_32) {
        SAMPLE_COUNT_32
    } else if has_flags(counts, SAMPLE_COUNT_16) {
        SAMPLE_COUNT_16
    } else if has_flags(counts, SAMPLE_COUNT_8) {
        SAMPLE_COUNT_8
    } else if has_flags(counts, SAMPLE_COUNT_4) {
        SAMPLE_COUNT_4
    } else if has_flags(counts, SAMPLE_COUNT_2) {
        SAMPLE_COUNT_2
    } else {
        SAMPLE_COUNT_1
    }
}

/// The sample count to render with: the highest count in the smaller (as a
/// raw mask) of the color and the depth sample-count masks.
pub fn get_max_usable_sample_count(framebuffer_color_sample_counts: u32, framebuffer_depth_sample_counts: u32) -> (res: u32)
    ensures
        res == highest_sample_count(
            if framebuffer_color_sample_counts <= framebuffer_depth_sample_counts {
                framebuffer_color_sample_counts
            } else {
                framebuffer_depth_sample_counts
            },
        ),
{
    let counts = if framebuffer_color_sample_counts <= framebuffer_depth_sample_counts {
        framebuffer_color_sample_counts
    } else {
        framebuffer_depth_sample_counts
    };
    if contains_flags(counts, SAMPLE_COUNT_64) {
        SAMPLE_COUNT_64
    } else if contains_flags(counts, SAMPLE_COUNT_32) {
        SAMPLE_COUNT_32
    } else if contains_flags(counts, SAMPLE_COUNT_16) {
        SAMPLE_COUNT_16
    } else if contains_flags(counts, SAMPLE_COUNT_8) {
        SAMPLE_COUNT_8
    } else if contains_flags(counts, SAMPLE_COUNT_4) {
        SAMPLE_COUNT_4
    } else if contains_flags(counts, SAMPLE_COUNT_2) {
        SAMPLE_COUNT_2
    } else {
        SAMPLE_COUNT_1
    }
}

/// The chosen sample count is a single count that the mask allows (or 1),
/// and no higher count up to 64 is allowed by it.
pub proof fn lemma_highest_sample_count(counts: u32)
    ensures
        highest_sample_count(counts) == SAMPLE_COUNT_1 || has_flags(counts, highest_sample_count(counts)),
        forall|k: u32| 0 <= k <= 6 && (1u32 << k) > highest_sample_count(counts) ==> !has_flags(counts, 1u32 << k),
{
    assert((1u32 << 0u32) == 1u32 && (1u32 << 1u32) == 2u32 && (1u32 << 2u32) == 4u32 && (1u32 << 3u32) == 8u32
        && (1u32 << 4u32) == 16u32 && (1u32 << 5u32) == 32u32 && (1u32 << 6u32) == 64u32) by (bit_vector);
    assert forall|k: u32| 0 <= k <= 6 && (1u32 << k) > highest_sample_count(counts) implies !has_flags(counts, 1u32 << k) by {
        if k == 0 {} else if k == 1 {} else if k == 2 {} else if k == 3 {} else if k == 4 {} else if k == 5 {} else {}
    }
}

} // verus!

verus! {

// ---------------------------------------------------------------------------
// Device extensions and suitability
// ---------------------------------------------------------------------------

/// What checking the device extensions gives: an error when they could not be
/// listed or a name is not UTF-8, otherwise whether the swap-chain extension
/// is among them.
pub open spec fn extension_support(available_extensions: Option<Vec<Vec<i8>>>) -> Result<bool, Seq<char>> {
    match available_extensions {
        None => Err("failed to get device extension properties."@),
        Some(names) => if !all_valid_utf8(names@) {
            Err("Failed to convert raw_char_array to String!"@)
        } else {
            Ok(names_contain(names@, SWAPCHAIN_EXTENSION@))
        },
    }
}

/// Whether the device offers every extension the renderer needs. The names of
/// the device's extensions are given; `None` when they could not be listed.
pub fn check_device_extension_support(available_extensions: &Option<Vec<Vec<i8>>>) -> (res: Result<bool, String>)
    requires
        available_extensions matches Some(names) ==> all_nul_terminated(names@),
    ensures
        outcome_is(res, extension_support(*available_extensions)),
{
    match available_extensions {
        None => Err(owned("failed to get device extension properties.")),
        Some(names) => {
            let strings = match names_to_strings(names) {
                Ok(strings) => strings,
                Err(e) => return Err(e),
            };
            let required = vk_device_extensions();
            let found = strings_contain(&strings, required.names[0]);
            proof {
                if found {
                    let i = choose|i: int| 0 <= i < strings.len() && #[trigger] strings@[i]@ == SWAPCHAIN_EXTENSION@;
                    assert(decode_utf8(c_string_bytes(names@[i]@)) == SWAPCHAIN_EXTENSION@);
                } else {
                    assert forall|i: int| 0 <= i < names.len() implies decode_utf8(c_string_bytes(#[trigger] names@[i]@)) != SWAPCHAIN_EXTENSION@ by {
                        assert(strings@[i]@ != SWAPCHAIN_EXTENSION@);
                    }
                }
            }
            Ok(found)
        },
    }
}

/// What was learned of one physical device: its queue families, the surface
/// query for each family, the names of its extensions (`None` when they could
/// not be listed), its swap-chain support and its sampler-anisotropy feature.
pub struct DeviceSurvey {
    pub queue_families: Vec<QueueFamilyProperties>,
    pub present_support: Vec<Result<bool, i32>>,
    pub extension_names: Option<Vec<Vec<i8>>>,
    pub swapchain_support: Result<VkSwapchainDetail, String>,
    pub sampler_anisotropy: u32,
}

/// The survey is complete: one surface answer per family, family indices
/// that fit in `u32`, extension names that are NUL-terminated.
pub open spec fn survey_wf(survey: &DeviceSurvey) -> bool {
    &&& survey.present_support.len() == survey.queue_families.len()
    &&& survey.queue_families.len() <= u32::MAX
    &&& survey.extension_names matches Some(names) ==> all_nul_terminated(names@)
}

/// Whether a device suits the renderer: complete queue families, the needed
/// extensions, at least one surface format and present mode (only looked at
/// when the extensions are there), and sampler anisotropy. The first failed
/// query, in that order, is the error.
pub open spec fn device_suitability(survey: &DeviceSurvey) -> Result<bool, Seq<char>> {
    match queue_family_search(survey.queue_families@, survey.present_support@) {
        Err(code) => Err(vk_result_text(code)),
        Ok(indices) => match extension_support(survey.extension_names) {
            Err(m) => Err(m),
            Ok(extensions_supported) => match survey.swapchain_support {
                Err(e) => Err(e@),
                Ok(detail) => Ok(
                    indices.spec_is_complete()
                    && extensions_supported
                    && !(detail.formats.len() == 0 || detail.present_modes.len() == 0)
                    && survey.sampler_anisotropy == 1,
                ),
            },
        },
    }
}

/// Checks whether a device suits the renderer.
pub fn check_device_suitable(survey: &DeviceSurvey) -> (res: Result<bool, String>)
    requires
        survey_wf(survey),
    ensures
        outcome_is(res, device_suitability(survey)),
{
    let indices = match find_queue_family(&survey.queue_families, &survey.present_support) {
        Ok(indices) => indices,
        Err(e) => return Err(e),
    };
    let extensions_supported = match check_device_extension_support(&survey.extension_names) {
        Ok(b) => b,
        Err(e) => return Err(e),
    };
    let swapchain_support = match &survey.swapchain_support {
        Ok(detail) => detail,
        Err(e) => return Err(e.clone()),
    };
    let swapchain_adequate = if extensions_supported {
        !(swapchain_support.formats.len() == 0 || swapchain_support.present_modes.len() == 0)
    } else {
        false
    };
    Ok(indices.is_complete() && extensions_supported && swapchain_adequate && survey.sampler_anisotropy == 1)
}

/// `i` is the first device whose check fails or finds it suitable.
pub open spec fn is_first_decided_device(devices: Seq<DeviceSurvey>, i: int) -> bool {
    &&& 0 <= i < devices.len()
    &&& device_suitability(&devices[i]) != Ok::<bool, Seq<char>>(false)
    &&& forall|j: int| 0 <= j < i ==> device_suitability(&#[trigger] devices[j]) == Ok::<bool, Seq<char>>(false)
}

/// Picks the first suitable device, by its position among the devices. The
/// devices are tried in order; the first check that fails is the error.
/// `physical_devices` is `None` when the devices could not be listed.
pub fn pick_physical_device(physical_devices: &Option<Vec<DeviceSurvey>>) -> (res: Result<usize, String>)
    requires
        physical_devices matches Some(devices) ==> forall|i: int| 0 <= i < devices.len() ==> survey_wf(&#[trigger] devices@[i]),
    ensures
        physical_devices is None ==> (res matches Err(msg) && msg@ == "failed to find GPU(s) with Vulkan support!"@),
        physical_devices matches Some(devices) ==> (
            (forall|j: int| 0 <= j < devices.len() ==> device_suitability(&#[trigger] devices@[j]) == Ok::<bool, Seq<char>>(false))
                ==> (res matches Err(msg) && msg@ == "failed to find a suitable GPU!"@)),
        physical_devices matches Some(devices) ==> (forall|i: int| is_first_decided_device(devices@, i) ==> match device_suitability(&devices@[i]) {
            Ok(_) => res == Ok::<usize, String>(i as usize),
            Err(m) => res matches Err(msg) && msg@ == m,
        }),
{
    match physical_devices {
        None => Err(owned("failed to find GPU(s) with Vulkan support!")),
        Some(devices) => {
            let mut i: usize = 0;
            #[verifier::loop_isolation(false)]
            while i < devices.len()
                invariant
                    forall|k: int| 0 <= k < devices.len() ==> survey_wf(&#[trigger] devices@[k]),
                    i <= devices.len(),
                    forall|j: int| 0 <= j < i ==> device_suitability(&#[trigger] devices@[j]) == Ok::<bool, Seq<char>>(false),
                decreases devices.len() - i,
            {
                assert(survey_wf(&devices@[i as int]));
                let suitable = check_device_suitable(&devices[i]);
                match suitable {
                    Err(e) => {
                        proof { lemma_first_decided_unique(devices@, i as int); }
                        return Err(e);
                    },
                    Ok(true) => {
                        proof { lemma_first_decided_unique(devices@, i as int); }
                        return Ok(i);
                    },
                    Ok(false) => {},
                }
                i = i + 1;
            }
            proof {
                assert forall|k: int| !is_first_decided_device(devices@, k) by {
                    if 0 <= k < devices.len() {
                        assert(device_suitability(&devices@[k]) == Ok::<bool, Seq<char>>(false));
                    }
                }
            }
            Err(owned("failed to find a suitable GPU!"))
        },
    }
}

proof fn lemma_first_decided_unique(devices: Seq<DeviceSurvey>, i: int)
    requires
        0 <= i < devices.len(),
        device_suitability(&devices[i]) != Ok::<bool, Seq<char>>(false),
        forall|j: int| 0 <= j < i ==> device_suitability(&#[trigger] devices[j]) == Ok::<bool, Seq<char>>(false),
    ensures
        forall|k: int| is_first_decided_device(devices, k) ==> k == i,
{
    assert forall|k: int| is_first_decided_device(devices, k) implies k == i by {
        if k < i {
            assert(device_suitability(&devices[k]) == Ok::<bool, Seq<char>>(false));
        } else if k > i {
            assert(device_suitability(&devices[i]) == Ok::<bool, Seq<char>>(false));
        }
    }
}

/// The queue families to create queues in: the set of the graphics and the
/// present family.
pub fn unique_queue_families(indices: &QueueFamilyIndices) -> (res: HashSet<u32>)
    requires
        indices.spec_is_complete(),
    ensures
        res@ == set![indices.graphics_family->0, indices.present_family->0],
{
    broadcast use vstd::std_specs::hash::group_hash_axioms;
    let mut res: HashSet<u32> = HashSet::new();
    res.insert(indices.graphics_family.unwrap());
    res.insert(indices.present_family.unwrap());
    proof {
        assert(res@ =~= set![indices.graphics_family->0, indices.present_family->0]);
    }
    res
}

} // verus!
