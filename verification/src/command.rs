//! Flags of command pools and fences, and the command pool's error text.

use vstd::prelude::*;
use crate::text::concat;
use crate::vk::{COMMAND_POOL_CREATE_RESET_COMMAND_BUFFER, FENCE_CREATE_SIGNALED};

verus! {

/// A pool whose command buffers may be reset one by one, or a plain pool.
pub fn command_pool_flags(allow_reset: bool) -> (res: u32)
    ensures
        res == if allow_reset { COMMAND_POOL_CREATE_RESET_COMMAND_BUFFER } else { 0 },
{
    if allow_reset {
        COMMAND_POOL_CREATE_RESET_COMMAND_BUFFER
    } else {
        0
    }
}

/// A fence created signaled, or unsignaled.
pub fn fence_create_flags(signaled: bool) -> (res: u32)
    ensures
        res == if signaled { FENCE_CREATE_SIGNALED } else { 0 },
{
    if signaled {
        FENCE_CREATE_SIGNALED
    } else {
        0
    }
}

/// The error when the command pool for a kind of queue family (`pool_type`)
/// cannot be created.
pub fn command_pool_error(pool_type: &str) -> (res: String)
    ensures
        res@ == "failed to create command pool ("@ + pool_type@ + ")"@,
{
    let s = concat("failed to create command pool (", pool_type);
    concat(s.as_str(), ")")
}

} // verus!
