//! The graphics and present queue families of a device.

use vstd::prelude::*;
use crate::text::owned;
use crate::vk::{SHARING_MODE_CONCURRENT, SHARING_MODE_EXCLUSIVE};

verus! {

/// Indices of the queue families found for graphics and for presenting.
#[derive(Clone, Copy, Debug, PartialEq, Eq, Structural)]
pub struct QueueFamilyIndices {
    pub graphics_family: Option<u32>,
    pub present_family: Option<u32>,
}

impl QueueFamilyIndices {
    pub fn new(graphics_family: Option<u32>, present_family: Option<u32>) -> (res: Self)
        ensures
            res.graphics_family == graphics_family,
            res.present_family == present_family,
    {
        Self { graphics_family, present_family }
    }

    /// Both families were found.
    pub open spec fn spec_is_complete(&self) -> bool {
        self.graphics_family is Some && self.present_family is Some
    }

    #[verifier::when_used_as_spec(spec_is_complete)]
    pub fn is_complete(&self) -> (res: bool)
        ensures
            res == self.spec_is_complete(),
    {
        self.graphics_family.is_some() && self.present_family.is_some()
    }

    /// How swap-chain images are shared between the two families: concurrently
    /// by both when they differ, exclusively (with no family list) otherwise.
    pub fn sharing_mode(&self) -> (res: (i32, Vec<u32>))
        requires
            self.spec_is_complete(),
        ensures
            self.graphics_family != self.present_family ==> {
                &&& res.0 == SHARING_MODE_CONCURRENT
                &&& res.1@ == seq![self.graphics_family->0, self.present_family->0]
            },
            self.graphics_family == self.present_family ==> {
                &&& res.0 == SHARING_MODE_EXCLUSIVE
                &&& res.1@ == Seq::<u32>::empty()
            },
    {
        let graphics = self.graphics_family.unwrap();
        let present = self.present_family.unwrap();
        if graphics != present {
            (SHARING_MODE_CONCURRENT, vec![graphics, present])
        } else {
            (SHARING_MODE_EXCLUSIVE, Vec::new())
        }
    }

    /// The families to take the graphics and the present queue from, or the
    /// error that says which of them is missing.
    pub fn device_queue_families(&self) -> (res: Result<(u32, u32), String>)
        ensures
            self.spec_is_complete() ==> res == Ok::<(u32, u32), String>((self.graphics_family->0, self.present_family->0)),
            !self.spec_is_complete() ==> (res matches Err(msg) && msg@ == (
                if self.graphics_family is None && self.present_family is Some {
                    "failed to get device queue for graphics queue."@
                } else if self.graphics_family is Some && self.present_family is None {
                    "failed to get device queue for present queue."@
                } else {
                    "failed to get device queues for both queues."@
                })),
    {
        if self.is_complete() {
            Ok((self.graphics_family.unwrap(), self.present_family.unwrap()))
        } else {
            match (self.graphics_family.is_none(), self.present_family.is_none()) {
                (true, false) => Err(owned("failed to get device queue for graphics queue.")),
                (false, true) => Err(owned("failed to get device queue for present queue.")),
                _ => Err(owned("failed to get device queues for both queues.")),
            }
        }
    }
}

} // verus!
