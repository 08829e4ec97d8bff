//! The logical device: its required extensions and its queue families.

use vstd::prelude::*;
use vstd::utf8::{valid_utf8, decode_utf8};
use crate::text::{owned, concat, has_nul, c_string_bytes};
use crate::utils::vk_to_string;
use crate::surface::SurfaceError;
use crate::vk::{QueueFamilyProperties, has_flags, contains_flags, QUEUE_GRAPHICS, QUEUE_COMPUTE};
use crate::weekend::debug::all_nul_terminated;

verus! {

/// The queue families the device's queues come from.
#[derive(Clone, Copy, Debug, PartialEq, Eq, Structural)]
pub struct QueueFamilyIndices {
    pub graphics_family: u32,
    pub compute_family: u32,
    pub present_family: u32,
}

// ---------------------------------------------------------------------------
// Queue families
// ---------------------------------------------------------------------------

/// A family with at least one queue, all the `required` flags, and not all
/// of the `excluded` flags.
pub open spec fn queue_matches(family: QueueFamilyProperties, required: u32, excluded: u32) -> bool {
    &&& family.queue_count > 0
    &&& has_flags(family.queue_flags, required)
    &&& !has_flags(family.queue_flags, excluded)
}

/// `k` is the first family that matches.
pub open spec fn is_first_queue_match(families: Seq<QueueFamilyProperties>, required: u32, excluded: u32, k: int) -> bool {
    &&& 0 <= k < families.len()
    &&& queue_matches(families[k], required, excluded)
    &&& forall|j: int| 0 <= j < k ==> !queue_matches(#[trigger] families[j], required, excluded)
}

/// The error text when no family of a kind matches.
pub open spec fn no_queue_text(name: Seq<char>) -> Seq<char> {
    "found no matching "@ + name + " queue"@
}

/// The first family with a queue that has the `required` flags and not the
/// `excluded` ones; `name` names the kind of queue in the error.
pub fn find_queue(
    queue_families: &Vec<QueueFamilyProperties>,
    name: &str,
    required_flags: u32,
    excluded_flags: u32,
) -> (res: Result<u32, String>)
    requires
        queue_families.len() <= u32::MAX,
    ensures
        forall|k: int| is_first_queue_match(queue_families@, required_flags, excluded_flags, k)
            ==> res == Ok::<u32, String>(k as u32),
        (forall|k: int| 0 <= k < queue_families.len()
            ==> !queue_matches(#[trigger] queue_families@[k], required_flags, excluded_flags))
            ==> (res matches Err(msg) && msg@ == no_queue_text(name@)),
{
    let mut i: usize = 0;
    while i < queue_families.len()
        invariant
            queue_families.len() <= u32::MAX,
            i <= queue_families.len(),
            forall|j: int| 0 <= j < i ==> !queue_matches(#[trigger] queue_families@[j], required_flags, excluded_flags),
        decreases queue_families.len() - i,
    {
        let family = queue_families[i];
        if family.queue_count > 0 && contains_flags(family.queue_flags, required_flags)
            && !contains_flags(family.queue_flags, excluded_flags) {
            proof {
                assert forall|k: int| is_first_queue_match(queue_families@, required_flags, excluded_flags, k) implies k == i by {
                    if k < i {
                        assert(!queue_matches(queue_families@[k], required_flags, excluded_flags));
                    } else if k > i {
                        assert(!queue_matches(queue_families@[i as int], required_flags, excluded_flags));
                    }
                }
            }
            return Ok(i as u32);
        }
        i = i + 1;
    }
    proof {
        assert forall|k: int| !is_first_queue_match(queue_families@, required_flags, excluded_flags, k) by {
            if 0 <= k < queue_families.len() {
                assert(!queue_matches(queue_families@[k], required_flags, excluded_flags));
            }
        }
    }
    let s = concat("found no matching ", name);
    Err(concat(s.as_str(), " queue"))
}

/// Every mask holds the empty set of flags, so a search that excludes no
/// flags excludes every family and never matches.
pub proof fn lemma_excluding_nothing_matches_nothing(family: QueueFamilyProperties, required: u32)
    ensures
        !queue_matches(family, required, 0),
{
    let flags = family.queue_flags;
    assert(flags & 0 == 0) by (bit_vector);
}

/// A family with a queue that can present to the surface; a failed surface
/// query counts as no.
pub open spec fn can_present(family: QueueFamilyProperties, support: Result<bool, SurfaceError>) -> bool {
    family.queue_count > 0 && support == Ok::<bool, SurfaceError>(true)
}

/// `k` is the first family that can present.
pub open spec fn is_first_presenting(families: Seq<QueueFamilyProperties>, support: Seq<Result<bool, SurfaceError>>, k: int) -> bool {
    &&& 0 <= k < families.len()
    &&& can_present(families[k], support[k])
    &&& forall|j: int| 0 <= j < k ==> !can_present(#[trigger] families[j], support[j])
}

/// The first family that can present.
fn find_present_queue(
    queue_families: &Vec<QueueFamilyProperties>,
    present_support: &Vec<Result<bool, SurfaceError>>,
) -> (res: Result<u32, String>)
    requires
        queue_families.len() <= u32::MAX,
        present_support.len() == queue_families.len(),
    ensures
        forall|k: int| is_first_presenting(queue_families@, present_support@, k) ==> res == Ok::<u32, String>(k as u32),
        (forall|k: int| 0 <= k < queue_families.len() ==> !can_present(#[trigger] queue_families@[k], present_support@[k]))
            ==> (res matches Err(msg) && msg@ == "found no presentation queue"@),
{
    let mut i: usize = 0;
    while i < queue_families.len()
        invariant
            queue_families.len() <= u32::MAX,
            present_support.len() == queue_families.len(),
            i <= queue_families.len(),
            forall|j: int| 0 <= j < i ==> !can_present(#[trigger] queue_families@[j], present_support@[j]),
        decreases queue_families.len() - i,
    {
        let supported = match present_support[i] {
            Ok(b) => b,
            Err(_) => false,
        };
        if queue_families[i].queue_count > 0 && supported {
            proof {
                assert forall|k: int| is_first_presenting(queue_families@, present_support@, k) implies k == i by {
                    if k < i {
                        assert(!can_present(queue_families@[k], present_support@[k]));
                    } else if k > i {
                        assert(!can_present(queue_families@[i as int], present_support@[i as int]));
                    }
                }
            }
            return Ok(i as u32);
        }
        i = i + 1;
    }
    proof {
        assert forall|k: int| !is_first_presenting(queue_families@, present_support@, k) by {
            if 0 <= k < queue_families.len() {
                assert(!can_present(queue_families@[k], present_support@[k]));
            }
        }
    }
    Err(owned("found no presentation queue"))
}

/// The queue families of the device: a graphics family, a compute family
/// without graphics, and a family that can present, searched in that order;
/// the first search that fails gives the error. `present_support[i]` is the
/// outcome of the surface query for family `i`. The graphics search excludes
/// the empty set of flags, which every family holds, so it never matches and
/// the outcome is always its error.
pub fn device_queue_families(
    queue_families: &Vec<QueueFamilyProperties>,
    present_support: &Vec<Result<bool, SurfaceError>>,
) -> (res: Result<QueueFamilyIndices, String>)
    requires
        queue_families.len() <= u32::MAX,
        present_support.len() == queue_families.len(),
    ensures
        res matches Err(msg) && msg@ == no_queue_text("graphics"@),
{
    proof {
        assert forall|k: int| 0 <= k < queue_families.len()
            implies !queue_matches(#[trigger] queue_families@[k], QUEUE_GRAPHICS, 0) by {
            lemma_excluding_nothing_matches_nothing(queue_families@[k], QUEUE_GRAPHICS);
        }
    }
    let graphics_family = find_queue(queue_families, "graphics", QUEUE_GRAPHICS, 0)?;
    let compute_family = find_queue(queue_families, "compute", QUEUE_COMPUTE, QUEUE_GRAPHICS)?;
    let present_family = find_present_queue(queue_families, present_support)?;
    Ok(QueueFamilyIndices { graphics_family, compute_family, present_family })
}

// ---------------------------------------------------------------------------
// Extensions
// ---------------------------------------------------------------------------

/// `acc` and `name` joined the way the error lists names: with ", " between
/// them, unless `acc` is still empty.
pub open spec fn join_name(acc: Seq<char>, name: Seq<char>) -> Seq<char> {
    if acc != Seq::<char>::empty() {
        acc + ", "@ + name
    } else {
        name
    }
}

/// The names of the first `end` extensions that are not listed, joined.
pub open spec fn missing_names(available: Seq<Vec<i8>>, listed: Seq<bool>, end: int) -> Seq<char>
    decreases end,
{
    if end <= 0 {
        Seq::empty()
    } else {
        let acc = missing_names(available, listed, end - 1);
        if !listed[end - 1] {
            join_name(acc, decode_utf8(c_string_bytes(available[end - 1]@)))
        } else {
            acc
        }
    }
}

/// Some available extension is not listed.
pub open spec fn some_missing(listed: Seq<bool>) -> bool {
    exists|i: int| 0 <= i < listed.len() && !listed[i]
}

/// Every extension that is not listed has a UTF-8 name.
pub open spec fn missing_names_utf8(available: Seq<Vec<i8>>, listed: Seq<bool>) -> bool {
    forall|i: int| 0 <= i < listed.len() && !listed[i] ==> valid_utf8(c_string_bytes(#[trigger] available[i]@))
}

/// Checks the device's extensions against the required ones. `available`
/// holds the names of the device's extensions, `None` when they could not be
/// listed; `listed[i]` tells whether extension `i` is among the required
/// ones, compared by the address of the name. Every
/// extension that is not listed is reported as missing.
pub fn check_required_extensions(available: &Option<Vec<Vec<i8>>>, listed: &Vec<bool>) -> (res: Result<(), String>)
    requires
        available matches Some(names) ==> all_nul_terminated(names@) && listed.len() == names.len(),
    ensures
        available is None ==> (res matches Err(msg) && msg@ == "failed to enumerate device extension properties"@),
        available matches Some(names) ==> {
            &&& !some_missing(listed@) ==> res is Ok
            &&& some_missing(listed@) && !missing_names_utf8(names@, listed@) ==> (res matches Err(msg)
                && msg@ == "failed to convert raw c_char array to String"@)
            &&& some_missing(listed@) && missing_names_utf8(names@, listed@) ==> (res matches Err(msg)
                && msg@ == "missing required extensions: "@ + missing_names(names@, listed@, names.len() as int))
        },
{
    let names = match available {
        None => return Err(owned("failed to enumerate device extension properties")),
        Some(names) => names,
    };
    let mut extensions = String::new();
    let mut any_missing = false;
    let mut i: usize = 0;
    #[verifier::loop_isolation(false)]
    while i < names.len()
        invariant
            i <= names.len(),
            any_missing == some_missing(listed@.take(i as int)),
            missing_names_utf8(names@.take(i as int), listed@.take(i as int)),
            extensions@ == missing_names(names@, listed@, i as int),
        decreases names.len() - i,
    {
        proof {
            assert(listed@.take(i + 1) == listed@.take(i as int).push(listed@[i as int]));
            assert(names@.take(i + 1) == names@.take(i as int).push(names@[i as int]));
        }
        if !listed[i] {
            assert(has_nul(names@[i as int]@));
            let extension_name = match vk_to_string(names[i].as_slice()) {
                Ok(text) => text,
                Err(e) => {
                    proof {
                        assert(!missing_names_utf8(names@, listed@));
                        assert(some_missing(listed@));
                    }
                    return Err(e);
                },
            };
            let nothing_yet = String::new();
            if !(extensions == nothing_yet) {
                let s = concat(extensions.as_str(), ", ");
                extensions = concat(s.as_str(), extension_name.as_str());
            } else {
                extensions = extension_name;
            }
            any_missing = true;
            proof {
                assert(listed@.take(i + 1)[i as int] == false);
            }
        } else {
            proof {
                if some_missing(listed@.take(i + 1)) {
                    let k = choose|k: int| 0 <= k < i + 1 && !#[trigger] listed@.take(i + 1)[k];
                    assert(listed@.take(i as int)[k] == listed@[k]);
                }
            }
        }
        proof {
            if some_missing(listed@.take(i as int)) {
                let k = choose|k: int| 0 <= k < i && !#[trigger] listed@.take(i as int)[k];
                assert(listed@.take(i + 1)[k] == listed@[k]);
            }
            assert forall|k: int| 0 <= k < i + 1 && !listed@.take(i + 1)[k]
                implies valid_utf8(c_string_bytes(#[trigger] names@.take(i + 1)[k]@)) by {
                if k < i {
                    assert(names@.take(i as int)[k] == names@[k]);
                    assert(listed@.take(i as int)[k] == listed@[k]);
                }
            }
        }
        i = i + 1;
    }
    proof {
        assert(listed@.take(i as int) == listed@);
        assert(names@.take(i as int) == names@);
    }
    if any_missing {
        Err(concat("missing required extensions: ", extensions.as_str()))
    } else {
        Ok(())
    }
}

} // verus!
