//! Reading Vulkan strings and shader files.

use vstd::prelude::*;
use vstd::utf8::{valid_utf8, decode_utf8};
use crate::text::{owned, concat, has_nul, c_string_bytes, c_string_to_string, ends_with, ends_with_chars};
use crate::text::{path_debug, path_debug_text};

verus! {

/// Reads the NUL-terminated name held in a Vulkan character array as UTF-8.
pub fn vk_to_string(raw_string_array: &[i8]) -> (res: Result<String, String>)
    requires
        has_nul(raw_string_array@),
    ensures
        match res {
            Ok(s) => valid_utf8(c_string_bytes(raw_string_array@)) && s@ == decode_utf8(c_string_bytes(raw_string_array@)),
            Err(msg) => !valid_utf8(c_string_bytes(raw_string_array@))
                && msg@ == "Failed to convert raw_char_array to String!"@,
        },
{
    match c_string_to_string(raw_string_array) {
        Some(s) => Ok(s),
        None => Err(owned("Failed to convert raw_char_array to String!")),
    }
}

/// The SPIR-V code of a shader. `shader_path` must name a `.spv` file;
/// `file_bytes` is what reading that file gave: `None` when it could not be
/// opened, else the bytes that could be read.
pub fn read_shader_code(shader_path: &str, file_bytes: Option<Vec<u8>>) -> (res: Result<Vec<u8>, String>)
    ensures
        !ends_with_chars(shader_path@, ".spv"@) ==> (res matches Err(msg) && msg@ == "Invalid file! File must be a .spv file"@),
        ends_with_chars(shader_path@, ".spv"@) ==> match file_bytes {
            None => res matches Err(msg) && msg@ == "Failed to find spv file at "@ + path_debug_text(shader_path@),
            Some(bytes) => res == Ok::<Vec<u8>, String>(bytes),
        },
{
    if !ends_with(shader_path, ".spv") {
        return Err(owned("Invalid file! File must be a .spv file"));
    }
    match file_bytes {
        None => {
            let shown = path_debug(shader_path);
            Err(concat("Failed to find spv file at ", shown.as_str()))
        },
        Some(bytes) => Ok(bytes),
    }
}

} // verus!
