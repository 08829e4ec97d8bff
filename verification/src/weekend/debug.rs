//! Validation-layer support and the labels of debug messages.

use vstd::prelude::*;
use vstd::utf8::{valid_utf8, decode_utf8};
use crate::text::{owned, has_nul, c_string_bytes};
use crate::vk::{MESSAGE_SEVERITY_VERBOSE, MESSAGE_SEVERITY_INFO, MESSAGE_SEVERITY_WARNING, MESSAGE_SEVERITY_ERROR};
use crate::vk::{MESSAGE_TYPE_GENERAL, MESSAGE_TYPE_VALIDATION, MESSAGE_TYPE_PERFORMANCE};
use crate::weekend::constants::{VALIDATION_LAYER, vk_validation_layer_names};
use crate::weekend::tools::vk_to_string;

verus! {

/// Every name in `names` holds a NUL-terminated string.
pub open spec fn all_nul_terminated(names: Seq<Vec<i8>>) -> bool {
    forall|i: int| 0 <= i < names.len() ==> has_nul(#[trigger] names[i]@)
}

/// Every name in `names` is valid UTF-8.
pub open spec fn all_valid_utf8(names: Seq<Vec<i8>>) -> bool {
    forall|i: int| 0 <= i < names.len() ==> valid_utf8(c_string_bytes(#[trigger] names[i]@))
}

/// Some name in `names` reads as `wanted`.
pub open spec fn names_contain(names: Seq<Vec<i8>>, wanted: Seq<char>) -> bool {
    exists|i: int| 0 <= i < names.len() && decode_utf8(c_string_bytes(#[trigger] names[i]@)) == wanted
}

/// Converts every name; the first one that is not UTF-8 gives the error.
pub fn names_to_strings(names: &Vec<Vec<i8>>) -> (res: Result<Vec<String>, String>)
    requires
        all_nul_terminated(names@),
    ensures
        match res {
            Ok(strings) => all_valid_utf8(names@) && strings.len() == names.len()
                && forall|i: int| 0 <= i < names.len() ==> #[trigger] strings@[i]@ == decode_utf8(c_string_bytes(names@[i]@)),
            Err(msg) => !all_valid_utf8(names@) && msg@ == "Failed to convert raw_char_array to String!"@,
        },
{
    let mut strings: Vec<String> = Vec::new();
    let mut i: usize = 0;
    while i < names.len()
        invariant
            all_nul_terminated(names@),
            i <= names.len(),
            strings.len() == i,
            all_valid_utf8(names@.take(i as int)),
            forall|k: int| 0 <= k < i ==> #[trigger] strings@[k]@ == decode_utf8(c_string_bytes(names@[k]@)),
        decreases names.len() - i,
    {
        assert(has_nul(names@[i as int]@));
        match vk_to_string(names[i].as_slice()) {
            Ok(s) => {
                strings.push(s);
            },
            Err(e) => {
                assert(!valid_utf8(c_string_bytes(names@[i as int]@)));
                return Err(e);
            },
        }
        i = i + 1;
        assert forall|k: int| 0 <= k < i implies valid_utf8(c_string_bytes(#[trigger] names@.take(i as int)[k]@)) by {
            if k < i - 1 {
                assert(names@.take(i as int)[k] == names@.take(i - 1)[k]);
            }
        }
    }
    assert(names@.take(i as int) =~= names@);
    Ok(strings)
}

/// Whether `strings` holds `wanted`.
pub fn strings_contain(strings: &Vec<String>, wanted: &str) -> (res: bool)
    ensures
        res == exists|i: int| 0 <= i < strings.len() && #[trigger] strings@[i]@ == wanted@,
{
    let wanted_string = owned(wanted);
    let mut i: usize = 0;
    while i < strings.len()
        invariant
            wanted_string@ == wanted@,
            i <= strings.len(),
            forall|k: int| 0 <= k < i ==> #[trigger] strings@[k]@ != wanted@,
        decreases strings.len() - i,
    {
        if strings[i] == wanted_string {
            return true;
        }
        i = i + 1;
    }
    false
}

/// Whether the Khronos validation layer is installed. `layer_properties`
/// holds the names of the instance layers, `None` when they could not be
/// listed. No layers at all means no support; a name that is not UTF-8 is an
/// error.
pub fn check_validation_layer_support(layer_properties: &Option<Vec<Vec<i8>>>) -> (res: Result<bool, String>)
    requires
        layer_properties matches Some(names) ==> all_nul_terminated(names@),
    ensures
        layer_properties is None ==> (res matches Err(msg) && msg@ == "failed to enumerate Instance Layer Properties!"@),
        layer_properties matches Some(names) ==> (names.len() == 0 ==> res == Ok::<bool, String>(false)),
        layer_properties matches Some(names) ==> (names.len() > 0 && !all_valid_utf8(names@) ==> (res matches Err(msg)
            && msg@ == "Failed to convert raw_char_array to String!"@)),
        layer_properties matches Some(names) ==> (names.len() > 0 && all_valid_utf8(names@) ==> res == Ok::<bool, String>(
            names_contain(names@, VALIDATION_LAYER@))),
{
    match layer_properties {
        None => Err(owned("failed to enumerate Instance Layer Properties!")),
        Some(names) => {
            if names.len() == 0 {
                return Ok(false);
            }
            let strings = match names_to_strings(names) {
                Ok(strings) => strings,
                Err(e) => return Err(e),
            };
            let required = vk_validation_layer_names();
            let mut r: usize = 0;
            #[verifier::loop_isolation(false)]
            while r < 1
                invariant
                    r <= 1,
                    required.required_validation_layers@ == seq![VALIDATION_LAYER],
                    strings.len() == names.len(),
                    forall|i: int| 0 <= i < names.len() ==> #[trigger] strings@[i]@ == decode_utf8(c_string_bytes(names@[i]@)),
                    r == 1 ==> names_contain(names@, VALIDATION_LAYER@),
                decreases 1 - r,
            {
                let layer = required.required_validation_layers[r];
                assert(layer == VALIDATION_LAYER);
                let found = strings_contain(&strings, layer);
                if !found {
                    assert forall|i: int| 0 <= i < names.len() implies decode_utf8(c_string_bytes(#[trigger] names@[i]@)) != VALIDATION_LAYER@ by {
                        assert(strings@[i]@ != VALIDATION_LAYER@);
                    }
                    assert(!names_contain(names@, VALIDATION_LAYER@));
                    return Ok(false);
                }
                proof {
                    let i = choose|i: int| 0 <= i < strings.len() && #[trigger] strings@[i]@ == VALIDATION_LAYER@;
                    assert(decode_utf8(c_string_bytes(names@[i]@)) == VALIDATION_LAYER@);
                }
                r = r + 1;
            }
            assert(names_contain(names@, VALIDATION_LAYER@));
            Ok(true)
        },
    }
}

/// The label of a message severity in the debug output.
pub fn severity_label(message_severity: u32) -> (res: &'static str)
    ensures
        res@ == if message_severity == MESSAGE_SEVERITY_VERBOSE {
            "[Verbose]"@
        } else if message_severity == MESSAGE_SEVERITY_INFO {
            "[Info]"@
        } else if message_severity == MESSAGE_SEVERITY_WARNING {
            "[Warning]"@
        } else if message_severity == MESSAGE_SEVERITY_ERROR {
            "[Error]"@
        } else {
            "[Unknown]"@
        },
{
    if message_severity == MESSAGE_SEVERITY_VERBOSE {
        "[Verbose]"
    } else if message_severity == MESSAGE_SEVERITY_INFO {
        "[Info]"
    } else if message_severity == MESSAGE_SEVERITY_WARNING {
        "[Warning]"
    } else if message_severity == MESSAGE_SEVERITY_ERROR {
        "[Error]"
    } else {
        "[Unknown]"
    }
}

/// The label of a message type in the debug output.
pub fn message_type_label(message_type: u32) -> (res: &'static str)
    ensures
        res@ == if message_type == MESSAGE_TYPE_GENERAL {
            "[General]"@
        } else if message_type == MESSAGE_TYPE_VALIDATION {
            "[Validation]"@
        } else if message_type == MESSAGE_TYPE_PERFORMANCE {
            "[Performance]"@
        } else {
            "[Unkown]"@
        },
{
    if message_type == MESSAGE_TYPE_GENERAL {
        "[General]"
    } else if message_type == MESSAGE_TYPE_VALIDATION {
        "[Validation]"
    } else if message_type == MESSAGE_TYPE_PERFORMANCE {
        "[Performance]"
    } else {
        "[Unkown]"
    }
}

} // verus!
