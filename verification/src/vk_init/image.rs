//! Layout transitions of the compute ray tracer's images.

use vstd::prelude::*;
use crate::vk::{IMAGE_LAYOUT_UNDEFINED, IMAGE_LAYOUT_TRANSFER_DST_OPTIMAL, IMAGE_LAYOUT_SHADER_READ_ONLY_OPTIMAL};
use crate::vk::{ACCESS_NONE, ACCESS_TRANSFER_WRITE, ACCESS_SHADER_READ};
use crate::vk::{PIPELINE_STAGE_TOP_OF_PIPE, PIPELINE_STAGE_TRANSFER, PIPELINE_STAGE_FRAGMENT_SHADER, PIPELINE_STAGE_ALL_COMMANDS};
use crate::vk::IMAGE_ASPECT_COLOR;

verus! {

/// The memory barrier that moves an image from one layout to another, with
/// the pipeline stages on either side of it.
#[derive(Clone, Copy, Debug, PartialEq, Eq, Structural)]
pub struct ImageBarrier {
    pub old_layout: i32,
    pub new_layout: i32,
    pub src_access_mask: u32,
    pub dst_access_mask: u32,
    pub src_stage: u32,
    pub dst_stage: u32,
    pub aspect_mask: u32,
}

/// The barrier for a transition of a color image: the two transitions of an
/// upload get their precise masks; any other transition waits on all
/// commands and names no access.
pub open spec fn color_transition(old_layout: i32, new_layout: i32) -> ImageBarrier {
    if old_layout == IMAGE_LAYOUT_UNDEFINED && new_layout == IMAGE_LAYOUT_TRANSFER_DST_OPTIMAL {
        ImageBarrier {
            old_layout, new_layout,
            src_access_mask: ACCESS_NONE,
            dst_access_mask: ACCESS_TRANSFER_WRITE,
            src_stage: PIPELINE_STAGE_TOP_OF_PIPE,
            dst_stage: PIPELINE_STAGE_TRANSFER,
            aspect_mask: IMAGE_ASPECT_COLOR,
        }
    } else if old_layout == IMAGE_LAYOUT_TRANSFER_DST_OPTIMAL && new_layout == IMAGE_LAYOUT_SHADER_READ_ONLY_OPTIMAL {
        ImageBarrier {
            old_layout, new_layout,
            src_access_mask: ACCESS_TRANSFER_WRITE,
            dst_access_mask: ACCESS_SHADER_READ,
            src_stage: PIPELINE_STAGE_TRANSFER,
            dst_stage: PIPELINE_STAGE_FRAGMENT_SHADER,
            aspect_mask: IMAGE_ASPECT_COLOR,
        }
    } else {
        ImageBarrier {
            old_layout, new_layout,
            src_access_mask: ACCESS_NONE,
            dst_access_mask: ACCESS_NONE,
            src_stage: PIPELINE_STAGE_ALL_COMMANDS,
            dst_stage: PIPELINE_STAGE_ALL_COMMANDS,
            aspect_mask: IMAGE_ASPECT_COLOR,
        }
    }
}

/// The barrier `transition_image` records to move a color image from
/// `old_layout` to `new_layout`.
pub fn transition_image_barrier(old_layout: i32, new_layout: i32) -> (res: ImageBarrier)
    ensures
        res == color_transition(old_layout, new_layout),
{
    let (src_access_mask, dst_access_mask, src_stage, dst_stage) =
        if old_layout == IMAGE_LAYOUT_UNDEFINED && new_layout == IMAGE_LAYOUT_TRANSFER_DST_OPTIMAL {
            (ACCESS_NONE, ACCESS_TRANSFER_WRITE, PIPELINE_STAGE_TOP_OF_PIPE, PIPELINE_STAGE_TRANSFER)
        } else if old_layout == IMAGE_LAYOUT_TRANSFER_DST_OPTIMAL && new_layout == IMAGE_LAYOUT_SHADER_READ_ONLY_OPTIMAL {
            (ACCESS_TRANSFER_WRITE, ACCESS_SHADER_READ, PIPELINE_STAGE_TRANSFER, PIPELINE_STAGE_FRAGMENT_SHADER)
        } else {
            (ACCESS_NONE, ACCESS_NONE, PIPELINE_STAGE_ALL_COMMANDS, PIPELINE_STAGE_ALL_COMMANDS)
        };
    ImageBarrier {
        old_layout,
        new_layout,
        src_access_mask,
        dst_access_mask,
        src_stage,
        dst_stage,
        aspect_mask: IMAGE_ASPECT_COLOR,
    }
}

} // verus!
