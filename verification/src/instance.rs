//! Checks the Vulkan instance makes: version, layers, extensions and the
//! physical device it renders with.

use vstd::prelude::*;
use vstd::utf8::{valid_utf8, decode_utf8};
use crate::text::{owned, concat, decimal, u32_to_decimal, has_nul, c_string_bytes};
use crate::utils::{c_string_text, vk_to_string};
use crate::vk::{QueueFamilyProperties, has_flags, contains_flags, QUEUE_GRAPHICS};
use crate::weekend::debug::all_nul_terminated;

verus! {

// ---------------------------------------------------------------------------
// Physical device
// ---------------------------------------------------------------------------

/// What a physical device must offer to be chosen.
#[derive(Clone, Copy, Debug, PartialEq, Eq, Structural)]
pub struct PhysicalDeviceRequiredFeatures {
    pub geometry_shader_support: bool,
    pub ray_tracing_support: bool,
    pub graphics_queue_support: bool,
}

impl Default for PhysicalDeviceRequiredFeatures {
    /// Everything is required.
    fn default() -> (res: Self)
        ensures
            res.geometry_shader_support,
            res.ray_tracing_support,
            res.graphics_queue_support,
    {
        Self {
            geometry_shader_support: true,
            ray_tracing_support: true,
            graphics_queue_support: true,
        }
    }
}

/// What the device search reads of one physical device.
pub struct PhysicalDeviceSupport {
    /// `VkPhysicalDeviceFeatures::geometryShader`.
    pub geometry_shader: u32,
    /// Whether its extension list holds the ray-tracing pipeline extension,
    /// as the search compares extension names (by address).
    pub ray_tracing_pipeline: bool,
    /// Its queue families.
    pub queue_families: Vec<QueueFamilyProperties>,
    /// Its name, a NUL-terminated array.
    pub device_name: Vec<i8>,
}

/// Some family has a queue and can do graphics.
pub open spec fn has_graphics_queue(families: Seq<QueueFamilyProperties>) -> bool {
    exists|k: int| 0 <= k < families.len() && #[trigger] families[k].queue_count > 0
        && has_flags(families[k].queue_flags, QUEUE_GRAPHICS)
}

/// The requirements in force: the given ones, or all of them when none are given.
pub open spec fn requirements(features: Option<&PhysicalDeviceRequiredFeatures>) -> PhysicalDeviceRequiredFeatures {
    match features {
        Some(f) => *f,
        None => PhysicalDeviceRequiredFeatures {
            geometry_shader_support: true,
            ray_tracing_support: true,
            graphics_queue_support: true,
        },
    }
}

/// The device offers everything that is required.
pub open spec fn device_meets(required: PhysicalDeviceRequiredFeatures, device: PhysicalDeviceSupport) -> bool {
    &&& required.geometry_shader_support ==> device.geometry_shader > 0
    &&& required.ray_tracing_support ==> device.ray_tracing_pipeline
    &&& required.graphics_queue_support ==> has_graphics_queue(device.queue_families@)
}

/// `k` is the first device that meets the requirements.
pub open spec fn is_first_suitable(required: PhysicalDeviceRequiredFeatures, devices: Seq<PhysicalDeviceSupport>, k: int) -> bool {
    &&& 0 <= k < devices.len()
    &&& device_meets(required, devices[k])
    &&& forall|j: int| 0 <= j < k ==> !device_meets(required, #[trigger] devices[j])
}

/// Whether some family of the device has a graphics queue.
fn find_graphics_queue(families: &Vec<QueueFamilyProperties>) -> (res: bool)
    ensures
        res == has_graphics_queue(families@),
{
    let mut k: usize = 0;
    while k < families.len()
        invariant
            k <= families.len(),
            forall|j: int| 0 <= j < k ==> !(#[trigger] families@[j].queue_count > 0
                && has_flags(families@[j].queue_flags, QUEUE_GRAPHICS)),
        decreases families.len() - k,
    {
        if families[k].queue_count > 0 && contains_flags(families[k].queue_flags, QUEUE_GRAPHICS) {
            return true;
        }
        k = k + 1;
    }
    false
}

/// Whether the device meets the requirements.
fn meets_requirements(required: &PhysicalDeviceRequiredFeatures, device: &PhysicalDeviceSupport) -> (res: bool)
    ensures
        res == device_meets(*required, *device),
{
    let geometry_shader_supported = if required.geometry_shader_support {
        device.geometry_shader > 0
    } else {
        true
    };
    let ray_tracing_supported = if required.ray_tracing_support {
        device.ray_tracing_pipeline
    } else {
        true
    };
    let graphics_queue_supported = if required.graphics_queue_support {
        find_graphics_queue(&device.queue_families)
    } else {
        true
    };
    geometry_shader_supported && ray_tracing_supported && graphics_queue_supported
}

/// The device to render with, by position: the first that meets the
/// requirements (all of them when `enabled_physical_device_features` is
/// `None`). Its name must read as UTF-8.
pub fn supported_physical_device(
    enabled_physical_device_features: Option<&PhysicalDeviceRequiredFeatures>,
    physical_devices: &Vec<PhysicalDeviceSupport>,
) -> (res: Result<usize, String>)
    requires
        forall|i: int| 0 <= i < physical_devices.len() ==> has_nul(#[trigger] physical_devices@[i].device_name@),
    ensures
        (forall|i: int| 0 <= i < physical_devices.len()
            ==> !device_meets(requirements(enabled_physical_device_features), #[trigger] physical_devices@[i]))
            ==> (res matches Err(msg) && msg@ == "failed to find a suitable device"@),
        forall|k: int| is_first_suitable(requirements(enabled_physical_device_features), physical_devices@, k) ==> {
            &&& c_string_text(physical_devices@[k].device_name@) is Some ==> res == Ok::<usize, String>(k as usize)
            &&& c_string_text(physical_devices@[k].device_name@) is None ==> (res matches Err(msg)
                && msg@ == "failed to convert raw c_char array to String"@)
        },
{
    let required = match enabled_physical_device_features {
        Some(features) => *features,
        None => PhysicalDeviceRequiredFeatures {
            geometry_shader_support: true,
            ray_tracing_support: true,
            graphics_queue_support: true,
        },
    };
    let ghost spec_required = requirements(enabled_physical_device_features);
    assert(required == spec_required);
    let mut i: usize = 0;
    #[verifier::loop_isolation(false)]
    while i < physical_devices.len()
        invariant
            required == spec_required,
            i <= physical_devices.len(),
            forall|j: int| 0 <= j < physical_devices.len() ==> has_nul(#[trigger] physical_devices@[j].device_name@),
            forall|j: int| 0 <= j < i ==> !device_meets(required, #[trigger] physical_devices@[j]),
        decreases physical_devices.len() - i,
    {
        if meets_requirements(&required, &physical_devices[i]) {
            proof {
                assert(is_first_suitable(required, physical_devices@, i as int));
                assert forall|k: int| is_first_suitable(required, physical_devices@, k) implies k == i by {
                    if k < i {
                        assert(!device_meets(required, physical_devices@[k]));
                    } else if k > i {
                        assert(!device_meets(required, physical_devices@[i as int]));
                    }
                }
            }
            return match vk_to_string(physical_devices[i].device_name.as_slice()) {
                Ok(_) => Ok(i),
                Err(e) => Err(e),
            };
        }
        i = i + 1;
    }
    Err(owned("failed to find a suitable device"))
}

// ---------------------------------------------------------------------------
// Lists the instance reads at creation
// ---------------------------------------------------------------------------

/// The physical devices; `queried` is `None` when they could not be listed.
/// None at all is an error.
pub fn get_vulkan_physical_devices(queried: Option<Vec<u64>>) -> (res: Result<Vec<u64>, String>)
    ensures
        queried is None ==> (res matches Err(msg) && msg@ == "failed to enumerate Vulkan physical devices"@),
        queried matches Some(devices) ==> (devices.len() == 0 ==> (res matches Err(msg)
            && msg@ == "found no Vulkan physical devices"@)),
        queried matches Some(devices) ==> (devices.len() > 0 ==> (res matches Ok(v) && v@ == devices@)),
{
    match queried {
        None => Err(owned("failed to enumerate Vulkan physical devices")),
        Some(devices) => {
            if devices.len() == 0 {
                Err(owned("found no Vulkan physical devices"))
            } else {
                Ok(devices)
            }
        },
    }
}

/// The instance layers (their names); `queried` is `None` when they could
/// not be listed.
pub fn get_vulkan_layers(queried: Option<Vec<Vec<i8>>>) -> (res: Result<Vec<Vec<i8>>, String>)
    ensures
        queried is None ==> (res matches Err(msg) && msg@ == "failed to enumerate instance layers"@),
        queried matches Some(layers) ==> (res matches Ok(v) && v@ == layers@),
{
    match queried {
        None => Err(owned("failed to enumerate instance layers")),
        Some(layers) => Ok(layers),
    }
}

/// The instance extensions (their names); `queried` is `None` when they could
/// not be listed.
pub fn get_vulkan_extensions(queried: Option<Vec<Vec<i8>>>) -> (res: Result<Vec<Vec<i8>>, String>)
    ensures
        queried is None ==> (res matches Err(msg) && msg@ == "failed to enumerate extensions"@),
        queried matches Some(extensions) ==> (res matches Ok(v) && v@ == extensions@),
{
    match queried {
        None => Err(owned("failed to enumerate extensions")),
        Some(extensions) => Ok(extensions),
    }
}

/// The extensions the instance is created with: the ones the window system
/// needs, and the debug-utils extension when validation layers are requested.
pub fn instance_extensions(window_extensions: Vec<u64>, validation_layer_count: usize, debug_utils: u64) -> (res: Vec<u64>)
    ensures
        res@ == if validation_layer_count > 0 { window_extensions@.push(debug_utils) } else { window_extensions@ },
{
    let mut extensions = window_extensions;
    if validation_layer_count > 0 {
        extensions.push(debug_utils);
    }
    extensions
}

// ---------------------------------------------------------------------------
// Version
// ---------------------------------------------------------------------------

/// The error text when the loader's version is below the minimum.
pub open spec fn version_too_low_text(min_version: u32, version: u32) -> Seq<char> {
    "minimum required version not found (required "@ + decimal(min_version as nat) + ", found "@
        + decimal(version as nat) + ")"@
}

/// Checks that the loader offers at least `min_version`. `queried` is the
/// loader's answer: `None` when the query failed, `Some(None)` when the
/// loader does not say (a 1.0 loader).
pub fn check_vulkan_minimum_version(queried: Option<Option<u32>>, min_version: u32) -> (res: Result<(), String>)
    ensures
        match queried {
            Some(Some(version)) => if min_version > version {
                res matches Err(msg) && msg@ == version_too_low_text(min_version, version)
            } else {
                res is Ok
            },
            _ => res matches Err(msg) && msg@ == "failed to enumerate instance version"@,
        },
{
    match queried {
        None => Err(owned("failed to enumerate instance version")),
        Some(None) => Err(owned("failed to enumerate instance version")),
        Some(Some(version)) => {
            if min_version > version {
                let required = u32_to_decimal(min_version);
                let found = u32_to_decimal(version);
                let s = concat("minimum required version not found (required ", required.as_str());
                let s = concat(s.as_str(), ", found ");
                let s = concat(s.as_str(), found.as_str());
                Err(concat(s.as_str(), ")"))
            } else {
                Ok(())
            }
        },
    }
}

// ---------------------------------------------------------------------------
// Validation layers
// ---------------------------------------------------------------------------

/// The text of the `i`-th requested layer.
pub open spec fn requested_name(requested: Seq<Vec<i8>>, i: int) -> Seq<char> {
    decode_utf8(c_string_bytes(requested[i]@))
}

/// Some available layer has the name `name`.
pub open spec fn layer_found(available: Seq<Vec<i8>>, name: Seq<char>) -> bool {
    exists|j: int| 0 <= j < available.len() && c_string_text(#[trigger] available[j]@) == Some(name)
}

/// Looking for `name` reads the available names in order up to the first
/// match; each name it reads is UTF-8.
pub open spec fn scan_reads_utf8(available: Seq<Vec<i8>>, name: Seq<char>) -> bool {
    forall|j: int| 0 <= j < available.len()
        && (forall|k: int| 0 <= k < j ==> c_string_text(#[trigger] available[k]@) != Some(name))
        ==> valid_utf8(c_string_bytes(#[trigger] available[j]@))
}

/// Every name read while looking for the layers is UTF-8: each requested
/// name reached (the search stops at the first one missing), and each
/// available name compared with it.
pub open spec fn check_reads_utf8(available: Seq<Vec<i8>>, requested: Seq<Vec<i8>>) -> bool {
    forall|i: int| 0 <= i < requested.len()
        && (forall|m: int| 0 <= m < i ==> layer_found(available, #[trigger] requested_name(requested, m)))
        ==> valid_utf8(c_string_bytes(#[trigger] requested[i]@))
            && scan_reads_utf8(available, requested_name(requested, i))
}

/// `k` is the first requested layer that is not available.
pub open spec fn is_first_missing(available: Seq<Vec<i8>>, requested: Seq<Vec<i8>>, k: int) -> bool {
    &&& 0 <= k < requested.len()
    &&& !layer_found(available, requested_name(requested, k))
    &&& forall|m: int| 0 <= m < k ==> layer_found(available, #[trigger] requested_name(requested, m))
}

/// Whether some available layer has the name `name`, reading the available
/// names in order up to the first match.
fn find_layer(available: &Vec<Vec<i8>>, name: &String) -> (res: bool)
    requires
        all_nul_terminated(available@),
        scan_reads_utf8(available@, name@),
    ensures
        res == layer_found(available@, name@),
{
    let mut j: usize = 0;
    while j < available.len()
        invariant
            all_nul_terminated(available@),
            scan_reads_utf8(available@, name@),
            j <= available.len(),
            forall|k: int| 0 <= k < j ==> c_string_text(#[trigger] available@[k]@) != Some(name@),
        decreases available.len() - j,
    {
        assert(has_nul(available@[j as int]@));
        assert(valid_utf8(c_string_bytes(available@[j as int]@)));
        let available_name = match vk_to_string(available[j].as_slice()) {
            Ok(text) => text,
            Err(_) => String::new(),
        };
        if *name == available_name {
            return true;
        }
        j = j + 1;
    }
    false
}

/// Whether every name that `check_vulkan_validation_layer_support` reads
/// is UTF-8, which that check requires of its inputs.
pub fn layer_names_readable(available: &Vec<Vec<i8>>, requested: &Vec<Vec<i8>>) -> (res: bool)
    requires
        all_nul_terminated(available@),
        all_nul_terminated(requested@),
    ensures
        res == check_reads_utf8(available@, requested@),
{
    let mut i: usize = 0;
    while i < requested.len()
        invariant
            all_nul_terminated(available@),
            all_nul_terminated(requested@),
            i <= requested.len(),
            forall|m: int| 0 <= m < i ==> layer_found(available@, #[trigger] requested_name(requested@, m)),
            forall|m: int| 0 <= m < i ==> valid_utf8(c_string_bytes(#[trigger] requested@[m]@))
                && scan_reads_utf8(available@, requested_name(requested@, m)),
        decreases requested.len() - i,
    {
        assert(has_nul(requested@[i as int]@));
        let name = match vk_to_string(requested[i].as_slice()) {
            Ok(text) => text,
            Err(_) => {
                proof {
                    assert(!valid_utf8(c_string_bytes(requested@[i as int]@)));
                }
                return false;
            },
        };
        assert(name@ == requested_name(requested@, i as int));
        let mut j: usize = 0;
        let mut found = false;
        while j < available.len()
            invariant
                all_nul_terminated(available@),
                i < requested.len(),
                name@ == requested_name(requested@, i as int),
                forall|m: int| 0 <= m < i ==> layer_found(available@, #[trigger] requested_name(requested@, m)),
                j <= available.len(),
                forall|k: int| 0 <= k < j ==> c_string_text(#[trigger] available@[k]@) != Some(name@),
                forall|k: int| 0 <= k < j ==> valid_utf8(c_string_bytes(#[trigger] available@[k]@)),
                found ==> j < available.len() && c_string_text(available@[j as int]@) == Some(name@)
                    && valid_utf8(c_string_bytes(available@[j as int]@)),
            ensures
                j <= available.len(),
                forall|k: int| 0 <= k < j ==> c_string_text(#[trigger] available@[k]@) != Some(name@),
                forall|k: int| 0 <= k < j ==> valid_utf8(c_string_bytes(#[trigger] available@[k]@)),
                found ==> j < available.len() && c_string_text(available@[j as int]@) == Some(name@)
                    && valid_utf8(c_string_bytes(available@[j as int]@)),
                !found ==> j == available.len(),
            decreases available.len() - j,
        {
            assert(has_nul(available@[j as int]@));
            match vk_to_string(available[j].as_slice()) {
                Ok(text) => {
                    if text == name {
                        found = true;
                        break;
                    }
                },
                Err(_) => {
                    proof {
                        assert(!scan_reads_utf8(available@, name@));
                        if check_reads_utf8(available@, requested@) {
                            assert(valid_utf8(c_string_bytes(requested@[i as int]@))
                                && scan_reads_utf8(available@, requested_name(requested@, i as int)));
                        }
                    }
                    return false;
                },
            }
            j = j + 1;
        }
        assert(scan_reads_utf8(available@, name@)) by {
            assert forall|k: int| 0 <= k < available.len()
                && (forall|l: int| 0 <= l < k ==> c_string_text(#[trigger] available@[l]@) != Some(name@))
                implies valid_utf8(c_string_bytes(#[trigger] available@[k]@)) by {
                if found && k > j {
                    assert(c_string_text(available@[j as int]@) == Some(name@));
                }
            }
        }
        if !found {
            proof {
                assert(!layer_found(available@, name@));
                assert forall|m: int| 0 <= m < requested.len()
                    && (forall|l: int| 0 <= l < m ==> layer_found(available@, #[trigger] requested_name(requested@, l)))
                    implies valid_utf8(c_string_bytes(#[trigger] requested@[m]@))
                        && scan_reads_utf8(available@, requested_name(requested@, m)) by {
                    if m > i {
                        assert(layer_found(available@, requested_name(requested@, i as int)));
                    }
                }
            }
            return true;
        }
        assert(layer_found(available@, requested_name(requested@, i as int)));
        i = i + 1;
    }
    true
}

/// Checks that every requested validation layer is installed.
/// `available_layers` holds the installed layers' names, `None` when they
/// could not be listed; `validation_layers` the requested names.
pub fn check_vulkan_validation_layer_support(
    available_layers: &Option<Vec<Vec<i8>>>,
    validation_layers: &Vec<Vec<i8>>,
) -> (res: Result<(), String>)
    requires
        available_layers matches Some(available) ==> all_nul_terminated(available@),
        available_layers matches Some(available) ==> (available.len() > 0
            ==> check_reads_utf8(available@, validation_layers@)),
        all_nul_terminated(validation_layers@),
    ensures
        available_layers is None ==> (res matches Err(msg) && msg@ == "failed to enumerate available validation layers"@),
        available_layers matches Some(available) ==> (available.len() == 0 ==> (res matches Err(msg)
            && msg@ == "no available layers"@)),
        available_layers matches Some(available) ==> (available.len() > 0 ==> {
            &&& (forall|i: int| 0 <= i < validation_layers.len()
                ==> layer_found(available@, #[trigger] requested_name(validation_layers@, i))) ==> res is Ok
            &&& forall|k: int| is_first_missing(available@, validation_layers@, k) ==> (res matches Err(msg)
                && msg@ == "could not find the requested validation layer: '"@
                    + requested_name(validation_layers@, k) + "'"@)
        }),
{
    let available = match available_layers {
        None => return Err(owned("failed to enumerate available validation layers")),
        Some(available) => available,
    };
    if available.len() == 0 {
        return Err(owned("no available layers"));
    }
    let mut i: usize = 0;
    #[verifier::loop_isolation(false)]
    while i < validation_layers.len()
        invariant
            i <= validation_layers.len(),
            forall|m: int| 0 <= m < i ==> layer_found(available@, #[trigger] requested_name(validation_layers@, m)),
        decreases validation_layers.len() - i,
    {
        assert(has_nul(validation_layers@[i as int]@));
        assert(valid_utf8(c_string_bytes(validation_layers@[i as int]@)));
        let layer = validation_layers[i].as_slice();
        let layer_name = match vk_to_string(layer) {
            Ok(text) => text,
            Err(_) => String::new(),
        };
        assert(layer_name@ == requested_name(validation_layers@, i as int));
        if !find_layer(available, &layer_name) {
            proof {
                assert(is_first_missing(available@, validation_layers@, i as int));
                assert forall|k: int| is_first_missing(available@, validation_layers@, k) implies k == i by {
                    if k < i {
                        assert(layer_found(available@, requested_name(validation_layers@, k)));
                    } else if k > i {
                        assert(!layer_found(available@, requested_name(validation_layers@, i as int)));
                    }
                }
            }
            let s = concat("could not find the requested validation layer: '", layer_name.as_str());
            return Err(concat(s.as_str(), "'"));
        }
        i = i + 1;
    }
    proof {
        assert forall|k: int| !is_first_missing(available@, validation_layers@, k) by {
            if 0 <= k < validation_layers.len() {
                assert(layer_found(available@, requested_name(validation_layers@, k)));
            }
        }
    }
    Ok(())
}

} // verus!

verus! {

/// Asking for no particular features requires the same as asking for the
/// default features: everything.
pub proof fn lemma_no_features_means_default(default_features: PhysicalDeviceRequiredFeatures)
    requires
        default_features.geometry_shader_support,
        default_features.ray_tracing_support,
        default_features.graphics_queue_support,
    ensures
        requirements(None) == requirements(Some(&default_features)),
{
}

/// The device search picks at most one device, and the one it picks meets
/// the requirements while no device before it does.
pub proof fn lemma_first_suitable_unique(
    required: PhysicalDeviceRequiredFeatures,
    devices: Seq<PhysicalDeviceSupport>,
    a: int,
    b: int,
)
    requires
        is_first_suitable(required, devices, a),
        is_first_suitable(required, devices, b),
    ensures
        a == b,
        device_meets(required, devices[a]),
{
    if a < b {
        assert(!device_meets(required, devices[a]));
    } else if b < a {
        assert(!device_meets(required, devices[b]));
    }
}

} // verus!
