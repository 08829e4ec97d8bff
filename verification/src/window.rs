//! Window settings of the compute ray tracer.

use vstd::prelude::*;

verus! {

/// Size and behaviour of the window the renderer draws into.
pub struct WindowConfig {
    pub width: u32,
    pub height: u32,
    pub resizable: bool,
}

} // verus!
