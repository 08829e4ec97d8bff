//! Instance, physical device and queue families.

use vstd::prelude::*;
use crate::QueueFamilyIndices;
use crate::lists::append_new;
use crate::constants::API_VERSION_1_2;
use crate::text::{owned, concat, decimal, u32_to_decimal};
use crate::vk::{QueueFamilyProperties, has_flags, contains_flags, QUEUE_COMPUTE, QUEUE_GRAPHICS};
use crate::vk::PHYSICAL_DEVICE_TYPE_DISCRETE_GPU;
use crate::text::{has_nul, c_string_bytes, c_string_to_bytes, str_from_utf8, utf8_error_text};
use crate::utils::{c_string_text, vk_to_string};
use crate::weekend::debug::{all_nul_terminated, all_valid_utf8};
use vstd::utf8::{valid_utf8, decode_utf8};

verus! {

// ---------------------------------------------------------------------------
// Queue families
// ---------------------------------------------------------------------------

/// The first family among the first `end` whose flags hold `bits`.
pub open spec fn first_family_with(families: Seq<QueueFamilyProperties>, bits: u32, end: int) -> Option<u32>
    decreases end,
{
    if end <= 0 {
        None
    } else {
        match first_family_with(families, bits, end - 1) {
            Some(i) => Some(i),
            None => if has_flags(families[end - 1].queue_flags, bits) { Some((end - 1) as u32) } else { None },
        }
    }
}

/// The first family among the first `end` that can present.
pub open spec fn first_presenting_family(support: Seq<Result<bool, i32>>, end: int) -> Option<u32>
    decreases end,
{
    if end <= 0 {
        None
    } else {
        match first_presenting_family(support, end - 1) {
            Some(i) => Some(i),
            None => if support[end - 1] == Ok::<bool, i32>(true) { Some((end - 1) as u32) } else { None },
        }
    }
}

/// The search ends at family `k`: its surface query failed, or by then a
/// compute, a graphics and a presenting family have all been seen.
pub open spec fn families_found_by(families: Seq<QueueFamilyProperties>, support: Seq<Result<bool, i32>>, k: int) -> bool {
    ||| support[k] is Err
    ||| {
        &&& first_family_with(families, QUEUE_COMPUTE, k + 1) is Some
        &&& first_family_with(families, QUEUE_GRAPHICS, k + 1) is Some
        &&& first_presenting_family(support, k + 1) is Some
    }
}

/// `k` is the first family at which the search ends.
pub open spec fn is_families_search_end(families: Seq<QueueFamilyProperties>, support: Seq<Result<bool, i32>>, k: int) -> bool {
    &&& 0 <= k < families.len()
    &&& families_found_by(families, support, k)
    &&& forall|j: int| 0 <= j < k ==> !families_found_by(families, support, j)
}

/// How many families the search looks at.
pub open spec fn families_examined(families: Seq<QueueFamilyProperties>, support: Seq<Result<bool, i32>>) -> int {
    if exists|k: int| is_families_search_end(families, support, k) {
        (choose|k: int| is_families_search_end(families, support, k)) + 1
    } else {
        families.len() as int
    }
}

/// `Debug` text of an optional index: `Some(n)` or `None`.
pub open spec fn option_debug(o: Option<u32>) -> Seq<char> {
    match o {
        Some(v) => "Some("@ + decimal(v as nat) + ")"@,
        None => "None"@,
    }
}

/// The error text when a kind of family is missing.
pub open spec fn missing_family_text(compute: Option<u32>, graphics: Option<u32>, present: Option<u32>) -> Seq<char> {
    "failed to find suitable queue family index (compute: "@ + option_debug(compute) + ", graphics: "@
        + option_debug(graphics) + ", present: "@ + option_debug(present) + ")"@
}

/// The outcome of the search: the first compute, first graphics and first
/// presenting family among those examined, or an error.
pub open spec fn queue_families_search(families: Seq<QueueFamilyProperties>, support: Seq<Result<bool, i32>>) -> Result<QueueFamilyIndices, Seq<char>> {
    let n = families_examined(families, support);
    let compute = first_family_with(families, QUEUE_COMPUTE, n);
    let graphics = first_family_with(families, QUEUE_GRAPHICS, n);
    let present = first_presenting_family(support, n);
    if n > 0 && support[n - 1] is Err {
        Err("failed to get surface support for physical device"@)
    } else if compute is Some && graphics is Some && present is Some {
        Ok(QueueFamilyIndices {
            compute_family_index: compute->0,
            graphics_family_index: graphics->0,
            present_family_index: present->0,
        })
    } else {
        Err(missing_family_text(compute, graphics, present))
    }
}

proof fn lemma_families_search_end_unique(families: Seq<QueueFamilyProperties>, support: Seq<Result<bool, i32>>, k: int)
    requires
        is_families_search_end(families, support, k),
    ensures
        families_examined(families, support) == k + 1,
{
    let c = choose|c: int| is_families_search_end(families, support, c);
    assert(is_families_search_end(families, support, c));
    if c < k {
        assert(!families_found_by(families, support, c));
    } else if c > k {
        assert(!families_found_by(families, support, k));
    }
}

/// `Debug` text of an optional index.
fn debug_option(o: Option<u32>) -> (res: String)
    ensures
        res@ == option_debug(o),
{
    match o {
        Some(v) => {
            let digits = u32_to_decimal(v);
            let s = concat("Some(", digits.as_str());
            concat(s.as_str(), ")")
        },
        None => owned("None"),
    }
}

/// Finds the queue families: the first family with the compute bit, the
/// first with the graphics bit and the first that can present, searching in
/// order until all three are found. `present_support[i]` is the outcome of
/// the surface query for family `i`; a failed query met is an error.
pub fn find_queue_families(
    queue_families: &Vec<QueueFamilyProperties>,
    present_support: &Vec<Result<bool, i32>>,
) -> (res: Result<QueueFamilyIndices, String>)
    requires
        present_support.len() == queue_families.len(),
        queue_families.len() <= u32::MAX,
    ensures
        crate::text::outcome_is(res, queue_families_search(queue_families@, present_support@)),
{
    let ghost fams = queue_families@;
    let ghost sup = present_support@;
    let mut compute_family_index: Option<u32> = None;
    let mut graphics_family_index: Option<u32> = None;
    let mut present_family_index: Option<u32> = None;
    let len = queue_families.len();
    let mut i: usize = 0;
    while i < len
        invariant
            fams == queue_families@,
            sup == present_support@,
            len == fams.len(),
            sup.len() == fams.len(),
            fams.len() <= u32::MAX,
            i <= len,
            forall|j: int| 0 <= j < i ==> !families_found_by(fams, sup, j),
            compute_family_index == first_family_with(fams, QUEUE_COMPUTE, i as int),
            graphics_family_index == first_family_with(fams, QUEUE_GRAPHICS, i as int),
            present_family_index == first_presenting_family(sup, i as int),
        decreases len - i,
    {
        let supports_compute = contains_flags(queue_families[i].queue_flags, QUEUE_COMPUTE);
        let supports_graphics = contains_flags(queue_families[i].queue_flags, QUEUE_GRAPHICS);
        let supports_presenting = match present_support[i] {
            Ok(b) => b,
            Err(_) => {
                proof {
                    assert(is_families_search_end(fams, sup, i as int));
                    lemma_families_search_end_unique(fams, sup, i as int);
                }
                return Err(owned("failed to get surface support for physical device"));
            },
        };
        if supports_graphics && graphics_family_index.is_none() {
            graphics_family_index = Some(i as u32);
        }
        if supports_presenting && present_family_index.is_none() {
            present_family_index = Some(i as u32);
        }
        if supports_compute && compute_family_index.is_none() {
            compute_family_index = Some(i as u32);
        }
        assert(compute_family_index == first_family_with(fams, QUEUE_COMPUTE, i + 1));
        assert(graphics_family_index == first_family_with(fams, QUEUE_GRAPHICS, i + 1));
        assert(present_family_index == first_presenting_family(sup, i + 1));
        if compute_family_index.is_some() && graphics_family_index.is_some() && present_family_index.is_some() {
            proof {
                assert(is_families_search_end(fams, sup, i as int));
                lemma_families_search_end_unique(fams, sup, i as int);
            }
            return Ok(QueueFamilyIndices {
                compute_family_index: compute_family_index.unwrap(),
                graphics_family_index: graphics_family_index.unwrap(),
                present_family_index: present_family_index.unwrap(),
            });
        }
        i = i + 1;
    }
    assert(!exists|k: int| is_families_search_end(fams, sup, k));
    if len > 0 {
        assert(!families_found_by(fams, sup, len - 1));
    }
    let c = debug_option(compute_family_index);
    let g = debug_option(graphics_family_index);
    let p = debug_option(present_family_index);
    let s = concat("failed to find suitable queue family index (compute: ", c.as_str());
    let s = concat(s.as_str(), ", graphics: ");
    let s = concat(s.as_str(), g.as_str());
    let s = concat(s.as_str(), ", present: ");
    let s = concat(s.as_str(), p.as_str());
    let s = concat(s.as_str(), ")");
    Err(s)
}

// ---------------------------------------------------------------------------
// Physical device
// ---------------------------------------------------------------------------

/// Picks the first discrete GPU, by its position among the devices.
/// `device_types` holds the type of each device, `None` when the devices
/// could not be listed.
pub fn pick_physical_device(device_types: &Option<Vec<i32>>) -> (res: Result<usize, String>)
    ensures
        device_types is None ==> (res matches Err(msg) && msg@ == "failed to enumerate physical devices"@),
        device_types matches Some(types) ==> (types.len() == 0 ==> (res matches Err(msg)
            && msg@ == "failed to find GPU(s) with Vulkan support"@)),
        device_types matches Some(types) ==> (types.len() > 0 && !types@.contains(PHYSICAL_DEVICE_TYPE_DISCRETE_GPU)
            ==> (res matches Err(msg) && msg@ == "failed to find suitable physical device"@)),
        device_types matches Some(types) ==> (types@.contains(PHYSICAL_DEVICE_TYPE_DISCRETE_GPU) ==> (res matches Ok(i)
            && i < types.len() && types@[i as int] == PHYSICAL_DEVICE_TYPE_DISCRETE_GPU
            && forall|j: int| 0 <= j < i ==> types@[j] != PHYSICAL_DEVICE_TYPE_DISCRETE_GPU)),
{
    match device_types {
        None => Err(owned("failed to enumerate physical devices")),
        Some(types) => {
            if types.len() == 0 {
                return Err(owned("failed to find GPU(s) with Vulkan support"));
            }
            let mut i: usize = 0;
            #[verifier::loop_isolation(false)]
            while i < types.len()
                invariant
                    i <= types.len(),
                    forall|j: int| 0 <= j < i ==> types@[j] != PHYSICAL_DEVICE_TYPE_DISCRETE_GPU,
                decreases types.len() - i,
            {
                if types[i] == PHYSICAL_DEVICE_TYPE_DISCRETE_GPU {
                    return Ok(i);
                }
                i = i + 1;
            }
            Err(owned("failed to find suitable physical device"))
        },
    }
}

// ---------------------------------------------------------------------------
// Instance
// ---------------------------------------------------------------------------

/// The API version to create the instance with: the version the loader
/// supports, or 1.2 when it does not say. `queried` is the loader's answer,
/// `None` when the query failed.
pub fn instance_api_version(queried: Option<Option<u32>>) -> (res: Result<u32, String>)
    ensures
        queried is None ==> (res matches Err(msg) && msg@ == "failed to enumerate instance version"@),
        queried == Some(None::<u32>) ==> res == Ok::<u32, String>(API_VERSION_1_2),
        queried matches Some(Some(v)) ==> res == Ok::<u32, String>(v),
{
    match queried {
        None => Err(owned("failed to enumerate instance version")),
        Some(None) => Ok(API_VERSION_1_2),
        Some(Some(version)) => Ok(version),
    }
}

/// Adds to `extensions` each of `required` that it does not hold yet, in
/// order. Extension names are identified by their address.
pub fn merge_extensions(extensions: &mut Vec<u64>, required: &Vec<u64>)
    ensures
        final(extensions)@ == append_new(old(extensions)@, required@),
{
    let mut k: usize = 0;
    while k < required.len()
        invariant
            k <= required.len(),
            extensions@ == append_new(old(extensions)@, required@.take(k as int)),
        decreases required.len() - k,
    {
        let extension = required[k];
        let present = holds(extensions, extension);
        if !present {
            extensions.push(extension);
        }
        proof {
            let items = required@.take(k + 1);
            assert(items.drop_last() == required@.take(k as int));
            assert(items.last() == extension);
        }
        k = k + 1;
    }
    assert(required@.take(k as int) == required@);
}

/// Whether `list` holds `item`.
pub fn holds(list: &Vec<u64>, item: u64) -> (res: bool)
    ensures
        res == list@.contains(item),
{
    let mut m: usize = 0;
    while m < list.len()
        invariant
            m <= list.len(),
            forall|t: int| 0 <= t < m ==> list@[t] != item,
        decreases list.len() - m,
    {
        if list[m] == item {
            assert(list@[m as int] == item);
            return true;
        }
        m = m + 1;
    }
    false
}

// ---------------------------------------------------------------------------
// Validation layers
// ---------------------------------------------------------------------------

/// The name of an available layer as the search compares it: its text, or
/// the empty string when its bytes are not UTF-8.
pub open spec fn available_layer_name(raw: Seq<i8>) -> Seq<char> {
    match c_string_text(raw) {
        Some(text) => text,
        None => Seq::empty(),
    }
}

/// Some available layer goes by `name`.
pub open spec fn layer_is_available(available: Seq<Vec<i8>>, name: Seq<char>) -> bool {
    exists|j: int| 0 <= j < available.len() && available_layer_name(#[trigger] available[j]@) == name
}

/// The positions, in order, of the first `end` requested layers that are
/// available.
pub open spec fn supported_layers(available: Seq<Vec<i8>>, requested: Seq<Vec<i8>>, end: int) -> Seq<usize>
    decreases end,
{
    if end <= 0 {
        Seq::empty()
    } else {
        let before = supported_layers(available, requested, end - 1);
        if layer_is_available(available, decode_utf8(c_string_bytes(requested[end - 1]@))) {
            before.push((end - 1) as usize)
        } else {
            before
        }
    }
}

/// `k` is the first requested layer whose name is not UTF-8.
pub open spec fn is_first_non_utf8(requested: Seq<Vec<i8>>, k: int) -> bool {
    &&& 0 <= k < requested.len()
    &&& !valid_utf8(c_string_bytes(requested[k]@))
    &&& forall|j: int| 0 <= j < k ==> valid_utf8(c_string_bytes(#[trigger] requested[j]@))
}

/// Whether some available layer goes by `name`.
fn find_available_layer(available: &Vec<Vec<i8>>, name: &String) -> (res: bool)
    requires
        all_nul_terminated(available@),
    ensures
        res == layer_is_available(available@, name@),
{
    let mut j: usize = 0;
    while j < available.len()
        invariant
            all_nul_terminated(available@),
            j <= available.len(),
            forall|k: int| 0 <= k < j ==> available_layer_name(#[trigger] available@[k]@) != name@,
        decreases available.len() - j,
    {
        assert(has_nul(available@[j as int]@));
        let available_name = match vk_to_string(available[j].as_slice()) {
            Ok(text) => text,
            Err(_) => String::new(),
        };
        assert(available_name@ == available_layer_name(available@[j as int]@));
        if *name == available_name {
            return true;
        }
        j = j + 1;
    }
    false
}

/// Keeps the requested validation layers that are available, by position.
/// `available_layers` holds the names of the installed layers, `None` when
/// they could not be listed; `validation_layers` the requested names. A
/// requested name that is not UTF-8 is an error, as is keeping none.
pub fn check_vulkan_validation_layer_support(
    available_layers: &Option<Vec<Vec<i8>>>,
    validation_layers: &Vec<Vec<i8>>,
) -> (res: Result<Vec<usize>, String>)
    requires
        available_layers matches Some(available) ==> all_nul_terminated(available@),
        all_nul_terminated(validation_layers@),
    ensures
        available_layers is None ==> (res matches Err(msg) && msg@ == "failed to enumerate available validation layers"@),
        available_layers matches Some(available) ==> (available.len() == 0 ==> (res matches Err(msg)
            && msg@ == "no availble validation layers"@)),
        available_layers matches Some(available) ==> (available.len() > 0 ==> {
            &&& forall|k: int| is_first_non_utf8(validation_layers@, k) ==> (res matches Err(msg)
                && msg@ == utf8_error_text(c_string_bytes(validation_layers@[k]@)))
            &&& all_valid_utf8(validation_layers@) ==> {
                let kept = supported_layers(available@, validation_layers@, validation_layers.len() as int);
                &&& kept.len() == 0 ==> (res matches Err(msg) && msg@ == "no validation layer were supported"@)
                &&& kept.len() > 0 ==> (res matches Ok(v) && v@ == kept)
            }
        }),
{
    let available = match available_layers {
        None => return Err(owned("failed to enumerate available validation layers")),
        Some(available) => available,
    };
    if available.len() == 0 {
        return Err(owned("no availble validation layers"));
    }
    let mut validated_layers: Vec<usize> = Vec::new();
    let mut i: usize = 0;
    #[verifier::loop_isolation(false)]
    while i < validation_layers.len()
        invariant
            all_nul_terminated(available@),
            all_nul_terminated(validation_layers@),
            available.len() > 0,
            i <= validation_layers.len(),
            forall|j: int| 0 <= j < i ==> valid_utf8(c_string_bytes(#[trigger] validation_layers@[j]@)),
            validated_layers@ == supported_layers(available@, validation_layers@, i as int),
        decreases validation_layers.len() - i,
    {
        assert(has_nul(validation_layers@[i as int]@));
        let bytes = c_string_to_bytes(validation_layers[i].as_slice());
        let layer_name = match str_from_utf8(bytes.as_slice()) {
            Ok(text) => {
                proof {
                    vstd::utf8::encode_utf8_decode_utf8(text@);
                }
                owned(text)
            },
            Err(err) => {
                proof {
                    assert(is_first_non_utf8(validation_layers@, i as int));
                    assert forall|k: int| is_first_non_utf8(validation_layers@, k) implies k == i by {
                        if k < i {
                            assert(valid_utf8(c_string_bytes(validation_layers@[k]@)));
                        } else if k > i {
                            assert(valid_utf8(c_string_bytes(validation_layers@[i as int]@)));
                        }
                    }
                }
                return Err(err);
            },
        };
        assert(layer_name@ == decode_utf8(c_string_bytes(validation_layers@[i as int]@)));
        if find_available_layer(available, &layer_name) {
            validated_layers.push(i);
        }
        i = i + 1;
    }
    proof {
        assert forall|k: int| !is_first_non_utf8(validation_layers@, k) by {
            if 0 <= k < validation_layers.len() {
                assert(valid_utf8(c_string_bytes(validation_layers@[k]@)));
            }
        }
    }
    if validated_layers.len() == 0 {
        Err(owned("no validation layer were supported"))
    } else {
        Ok(validated_layers)
    }
}

} // verus!

verus! {

/// The layers kept are requested positions, in increasing order, and each
/// names an available layer.
pub proof fn lemma_supported_layers_ordered_and_available(
    available: Seq<Vec<i8>>,
    requested: Seq<Vec<i8>>,
    end: int,
)
    requires
        0 <= end <= requested.len(),
        requested.len() <= usize::MAX,
    ensures
        forall|k: int| 0 <= k < supported_layers(available, requested, end).len() ==> {
            let i = #[trigger] supported_layers(available, requested, end)[k] as int;
            &&& 0 <= i < end
            &&& layer_is_available(available, decode_utf8(c_string_bytes(requested[i]@)))
        },
        forall|k: int, l: int| 0 <= k < l < supported_layers(available, requested, end).len()
            ==> supported_layers(available, requested, end)[k] < supported_layers(available, requested, end)[l],
    decreases end,
{
    if end > 0 {
        lemma_supported_layers_ordered_and_available(available, requested, end - 1);
        let before = supported_layers(available, requested, end - 1);
        let after = supported_layers(available, requested, end);
        if layer_is_available(available, decode_utf8(c_string_bytes(requested[end - 1]@))) {
            assert(after == before.push((end - 1) as usize));
            assert forall|k: int| 0 <= k < after.len() implies {
                let i = #[trigger] after[k] as int;
                &&& 0 <= i < end
                &&& layer_is_available(available, decode_utf8(c_string_bytes(requested[i]@)))
            } by {
                if k < before.len() {
                    assert(after[k] == before[k]);
                }
            }
            assert forall|k: int, l: int| 0 <= k < l < after.len() implies after[k] < after[l] by {
                assert(after[k] == before[k]);
                if l < before.len() {
                    assert(after[l] == before[l]);
                } else {
                    assert(0 <= before[k] < end - 1);
                }
            }
        }
    }
}

/// Every requested layer that is available is kept: its position is among
/// those of the first `end` requested layers that the check keeps.
pub proof fn lemma_supported_layers_complete(
    available: Seq<Vec<i8>>,
    requested: Seq<Vec<i8>>,
    end: int,
)
    requires
        0 <= end <= requested.len(),
        requested.len() <= usize::MAX,
    ensures
        forall|i: int| 0 <= i < end
            && layer_is_available(available, decode_utf8(c_string_bytes(#[trigger] requested[i]@)))
            ==> supported_layers(available, requested, end).contains(i as usize),
    decreases end,
{
    if end > 0 {
        lemma_supported_layers_complete(available, requested, end - 1);
        let before = supported_layers(available, requested, end - 1);
        let after = supported_layers(available, requested, end);
        assert forall|i: int| 0 <= i < end
            && layer_is_available(available, decode_utf8(c_string_bytes(#[trigger] requested[i]@)))
            implies after.contains(i as usize) by {
            if layer_is_available(available, decode_utf8(c_string_bytes(requested[end - 1]@))) {
                assert(after == before.push((end - 1) as usize));
                if i < end - 1 {
                    let k = choose|k: int| 0 <= k < before.len() && before[k] == i as usize;
                    assert(after[k] == i as usize);
                } else {
                    assert(after[before.len() as int] == i as usize);
                }
            }
        }
    }
}

/// Family `i` is the first whose flags hold all of `bits`, whatever other
/// bits it has.
pub open spec fn is_first_family_with(families: Seq<QueueFamilyProperties>, bits: u32, i: int) -> bool {
    &&& 0 <= i < families.len()
    &&& has_flags(families[i].queue_flags, bits)
    &&& forall|j: int| 0 <= j < i ==> !has_flags(#[trigger] families[j].queue_flags, bits)
}

/// Family `i` is the first that can present.
pub open spec fn is_first_presenting(support: Seq<Result<bool, i32>>, i: int) -> bool {
    &&& 0 <= i < support.len()
    &&& support[i] == Ok::<bool, i32>(true)
    &&& forall|j: int| 0 <= j < i ==> #[trigger] support[j] != Ok::<bool, i32>(true)
}

proof fn lemma_first_family_with_is_first(families: Seq<QueueFamilyProperties>, bits: u32, end: int)
    requires
        0 <= end <= families.len(),
        families.len() <= u32::MAX,
    ensures
        first_family_with(families, bits, end) matches Some(i) ==> i < end && is_first_family_with(families, bits, i as int),
        first_family_with(families, bits, end) is None
            ==> forall|j: int| 0 <= j < end ==> !has_flags(#[trigger] families[j].queue_flags, bits),
    decreases end,
{
    if end > 0 {
        lemma_first_family_with_is_first(families, bits, end - 1);
    }
}

proof fn lemma_first_presenting_is_first(support: Seq<Result<bool, i32>>, end: int)
    requires
        0 <= end <= support.len(),
        support.len() <= u32::MAX,
    ensures
        first_presenting_family(support, end) matches Some(i) ==> i < end && is_first_presenting(support, i as int),
        first_presenting_family(support, end) is None
            ==> forall|j: int| 0 <= j < end ==> #[trigger] support[j] != Ok::<bool, i32>(true),
    decreases end,
{
    if end > 0 {
        lemma_first_presenting_is_first(support, end - 1);
    }
}

proof fn lemma_families_search_end_exists(families: Seq<QueueFamilyProperties>, support: Seq<Result<bool, i32>>, k: int)
    requires
        0 <= k < families.len(),
        families_found_by(families, support, k),
    ensures
        exists|e: int| 0 <= e <= k && is_families_search_end(families, support, e),
    decreases k,
{
    if forall|j: int| 0 <= j < k ==> !families_found_by(families, support, j) {
        assert(is_families_search_end(families, support, k));
    } else {
        let j = choose|j: int| 0 <= j < k && families_found_by(families, support, j);
        lemma_families_search_end_exists(families, support, j);
    }
}

/// The families the search answers with are the first with the compute bit,
/// the first with the graphics bit and the first that can present, each
/// counted whatever other bits its flags hold: one family may serve all three.
pub proof fn lemma_queue_families_are_first(families: Seq<QueueFamilyProperties>, support: Seq<Result<bool, i32>>)
    requires
        support.len() == families.len(),
        families.len() <= u32::MAX,
    ensures
        queue_families_search(families, support) matches Ok(q) ==> {
            &&& is_first_family_with(families, QUEUE_COMPUTE, q.compute_family_index as int)
            &&& is_first_family_with(families, QUEUE_GRAPHICS, q.graphics_family_index as int)
            &&& is_first_presenting(support, q.present_family_index as int)
        },
{
    let n = families_examined(families, support);
    if exists|k: int| is_families_search_end(families, support, k) {
        let k = choose|k: int| is_families_search_end(families, support, k);
        assert(is_families_search_end(families, support, k));
    }
    assert(0 <= n <= families.len());
    lemma_first_family_with_is_first(families, QUEUE_COMPUTE, n);
    lemma_first_family_with_is_first(families, QUEUE_GRAPHICS, n);
    lemma_first_presenting_is_first(support, n);
}

/// The search succeeds whenever, within some prefix of the families whose
/// surface queries all succeeded, there is a family with the compute bit
/// (`c`), one with the graphics bit (`g`) and one that can present (`p`),
/// whatever other bits those families hold.
pub proof fn lemma_queue_families_found(
    families: Seq<QueueFamilyProperties>,
    support: Seq<Result<bool, i32>>,
    k: int,
    c: int,
    g: int,
    p: int,
)
    requires
        support.len() == families.len(),
        families.len() <= u32::MAX,
        0 <= k < families.len(),
        forall|j: int| 0 <= j <= k ==> (#[trigger] support[j]) is Ok,
        0 <= c <= k && has_flags(families[c].queue_flags, QUEUE_COMPUTE),
        0 <= g <= k && has_flags(families[g].queue_flags, QUEUE_GRAPHICS),
        0 <= p <= k && support[p] == Ok::<bool, i32>(true),
    ensures
        queue_families_search(families, support) is Ok,
{
    lemma_first_family_with_is_first(families, QUEUE_COMPUTE, k + 1);
    lemma_first_family_with_is_first(families, QUEUE_GRAPHICS, k + 1);
    lemma_first_presenting_is_first(support, k + 1);
    assert(families_found_by(families, support, k));
    lemma_families_search_end_exists(families, support, k);
    let e = choose|e: int| 0 <= e <= k && is_families_search_end(families, support, e);
    lemma_families_search_end_unique(families, support, e);
    assert(support[e] is Ok);
    assert(families_found_by(families, support, e));
}

} // verus!
