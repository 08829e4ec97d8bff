//! Reading Vulkan's fixed-size name arrays.

use vstd::prelude::*;
use vstd::utf8::{valid_utf8, decode_utf8};
use crate::text::{owned, has_nul, c_string_bytes, c_string_to_string};

verus! {

/// The text of a NUL-terminated name: its characters when its bytes are
/// UTF-8, nothing when they are not.
pub open spec fn c_string_text(raw: Seq<i8>) -> Option<Seq<char>> {
    if valid_utf8(c_string_bytes(raw)) {
        Some(decode_utf8(c_string_bytes(raw)))
    } else {
        None
    }
}

/// Reads the NUL-terminated name held in a Vulkan character array as UTF-8.
pub fn vk_to_string(raw_string_array: &[i8]) -> (res: Result<String, String>)
    requires
        has_nul(raw_string_array@),
    ensures
        match c_string_text(raw_string_array@) {
            Some(text) => res matches Ok(s) && s@ == text,
            None => res matches Err(msg) && msg@ == "failed to convert raw c_char array to String"@,
        },
{
    match c_string_to_string(raw_string_array) {
        Some(s) => Ok(s),
        None => Err(owned("failed to convert raw c_char array to String")),
    }
}

/// Records and submits one batch of commands on the graphics queue and waits
/// for it. The submission is carried out by the caller, which owns the device.
pub struct SingleTimeCommands;

} // verus!
