//! A 2D image and the layout it is in.

use vstd::prelude::*;
use crate::text::owned;
use crate::depth_buffer::{has_stencil_component, spec_has_stencil_component};
use crate::vk::Extent2D;
use crate::vk_init::image::ImageBarrier;
use crate::vk::{IMAGE_LAYOUT_UNDEFINED, IMAGE_LAYOUT_TRANSFER_DST_OPTIMAL, IMAGE_LAYOUT_SHADER_READ_ONLY_OPTIMAL};
use crate::vk::{IMAGE_LAYOUT_DEPTH_STENCIL_ATTACHMENT_OPTIMAL, IMAGE_TILING_OPTIMAL, IMAGE_USAGE_TRANSFER_DST, IMAGE_USAGE_SAMPLED};
use crate::vk::{ACCESS_NONE, ACCESS_TRANSFER_WRITE, ACCESS_SHADER_READ};
use crate::vk::{ACCESS_DEPTH_STENCIL_ATTACHMENT_READ, ACCESS_DEPTH_STENCIL_ATTACHMENT_WRITE};
use crate::vk::{PIPELINE_STAGE_TOP_OF_PIPE, PIPELINE_STAGE_TRANSFER, PIPELINE_STAGE_FRAGMENT_SHADER, PIPELINE_STAGE_EARLY_FRAGMENT_TESTS};
use crate::vk::{IMAGE_ASPECT_COLOR, IMAGE_ASPECT_DEPTH, IMAGE_ASPECT_STENCIL};
use crate::vk::{FORMAT_D32_SFLOAT_S8_UINT, FORMAT_D24_UNORM_S8_UINT};

verus! {

/// A 2D image: its handle, size and format, and the layout it was last
/// moved to.
#[derive(Clone, Copy, Debug, PartialEq, Eq, Structural)]
pub struct Image {
    pub image: u64,
    pub extent: Extent2D,
    pub format: i32,
    pub image_layout: i32,
}

/// The tiling and usage an image is created with: the given ones, or optimal
/// tiling and use as a sampled transfer destination.
pub open spec fn creation_settings(tiling: Option<i32>, usage_flags: Option<u32>) -> (i32, u32) {
    (
        match tiling { Some(t) => t, None => IMAGE_TILING_OPTIMAL },
        match usage_flags { Some(u) => u, None => IMAGE_USAGE_TRANSFER_DST | IMAGE_USAGE_SAMPLED },
    )
}

/// The aspect a barrier into `new_layout` covers for an image of `format`.
pub open spec fn transition_aspect(format: i32, new_layout: i32) -> u32 {
    if new_layout == IMAGE_LAYOUT_DEPTH_STENCIL_ATTACHMENT_OPTIMAL {
        if spec_has_stencil_component(format) {
            IMAGE_ASPECT_STENCIL | IMAGE_ASPECT_DEPTH
        } else {
            IMAGE_ASPECT_DEPTH
        }
    } else {
        IMAGE_ASPECT_COLOR
    }
}

/// The access masks and stages of a supported transition, as (source
/// access, destination access, source stage, destination stage); `None` for
/// a transition that is not supported.
pub open spec fn transition_masks(old_layout: i32, new_layout: i32) -> Option<(u32, u32, u32, u32)> {
    if old_layout == IMAGE_LAYOUT_UNDEFINED && new_layout == IMAGE_LAYOUT_TRANSFER_DST_OPTIMAL {
        Some((ACCESS_NONE, ACCESS_TRANSFER_WRITE, PIPELINE_STAGE_TOP_OF_PIPE, PIPELINE_STAGE_TRANSFER))
    } else if old_layout == IMAGE_LAYOUT_TRANSFER_DST_OPTIMAL && new_layout == IMAGE_LAYOUT_SHADER_READ_ONLY_OPTIMAL {
        Some((ACCESS_TRANSFER_WRITE, ACCESS_SHADER_READ, PIPELINE_STAGE_TRANSFER, PIPELINE_STAGE_FRAGMENT_SHADER))
    } else if old_layout == IMAGE_LAYOUT_UNDEFINED && new_layout == IMAGE_LAYOUT_DEPTH_STENCIL_ATTACHMENT_OPTIMAL {
        Some((ACCESS_NONE, ACCESS_DEPTH_STENCIL_ATTACHMENT_READ | ACCESS_DEPTH_STENCIL_ATTACHMENT_WRITE,
            PIPELINE_STAGE_TOP_OF_PIPE, PIPELINE_STAGE_EARLY_FRAGMENT_TESTS))
    } else {
        None
    }
}

/// The barrier for moving `image` to `new_layout`, or the error for a
/// transition that is not supported.
pub open spec fn planned_barrier(image: Image, new_layout: i32) -> Result<ImageBarrier, Seq<char>> {
    match transition_masks(image.image_layout, new_layout) {
        None => Err("unsupported layout transition"@),
        Some((src_access, dst_access, src_stage, dst_stage)) => Ok(ImageBarrier {
            old_layout: image.image_layout,
            new_layout,
            src_access_mask: src_access,
            dst_access_mask: dst_access,
            src_stage,
            dst_stage,
            aspect_mask: transition_aspect(image.format, new_layout),
        }),
    }
}

impl Image {
    /// The tiling and usage to create an image with.
    pub fn creation(tiling: Option<i32>, usage_flags: Option<u32>) -> (res: (i32, u32))
        ensures
            res == creation_settings(tiling, usage_flags),
    {
        let image_tiling = match tiling {
            Some(image_tiling) => image_tiling,
            None => IMAGE_TILING_OPTIMAL,
        };
        let image_usage_flags = match usage_flags {
            Some(image_usage_flags) => image_usage_flags,
            None => IMAGE_USAGE_TRANSFER_DST | IMAGE_USAGE_SAMPLED,
        };
        (image_tiling, image_usage_flags)
    }

    /// A newly created image, in the undefined layout.
    pub fn new(image: u64, extent: Extent2D, format: i32) -> (res: Self)
        ensures
            res.image == image,
            res.extent == extent,
            res.format == format,
            res.image_layout == IMAGE_LAYOUT_UNDEFINED,
    {
        Image { image, extent, format, image_layout: IMAGE_LAYOUT_UNDEFINED }
    }

    pub fn extent(&self) -> (res: Extent2D)
        ensures
            res == self.extent,
    {
        self.extent
    }

    pub fn format(&self) -> (res: i32)
        ensures
            res == self.format,
    {
        self.format
    }

    /// The barrier that moves the image from its layout to `new_layout`.
    /// Three transitions are supported: undefined to transfer destination,
    /// transfer destination to shader read, and undefined to depth-stencil
    /// attachment.
    pub fn layout_barrier(&self, new_layout: i32) -> (res: Result<ImageBarrier, String>)
        ensures
            crate::text::outcome_is(res, planned_barrier(*self, new_layout)),
    {
        let (src_access_mask, dst_access_mask, src_stage, dst_stage) =
            if self.image_layout == IMAGE_LAYOUT_UNDEFINED && new_layout == IMAGE_LAYOUT_TRANSFER_DST_OPTIMAL {
                (ACCESS_NONE, ACCESS_TRANSFER_WRITE, PIPELINE_STAGE_TOP_OF_PIPE, PIPELINE_STAGE_TRANSFER)
            } else if self.image_layout == IMAGE_LAYOUT_TRANSFER_DST_OPTIMAL
                && new_layout == IMAGE_LAYOUT_SHADER_READ_ONLY_OPTIMAL {
                (ACCESS_TRANSFER_WRITE, ACCESS_SHADER_READ, PIPELINE_STAGE_TRANSFER, PIPELINE_STAGE_FRAGMENT_SHADER)
            } else if self.image_layout == IMAGE_LAYOUT_UNDEFINED
                && new_layout == IMAGE_LAYOUT_DEPTH_STENCIL_ATTACHMENT_OPTIMAL {
                (ACCESS_NONE, ACCESS_DEPTH_STENCIL_ATTACHMENT_READ | ACCESS_DEPTH_STENCIL_ATTACHMENT_WRITE,
                    PIPELINE_STAGE_TOP_OF_PIPE, PIPELINE_STAGE_EARLY_FRAGMENT_TESTS)
            } else {
                return Err(owned("unsupported layout transition"));
            };
        let aspect_mask = if new_layout == IMAGE_LAYOUT_DEPTH_STENCIL_ATTACHMENT_OPTIMAL {
            if has_stencil_component(self.format) {
                IMAGE_ASPECT_STENCIL | IMAGE_ASPECT_DEPTH
            } else {
                IMAGE_ASPECT_DEPTH
            }
        } else {
            IMAGE_ASPECT_COLOR
        };
        Ok(ImageBarrier {
            old_layout: self.image_layout,
            new_layout,
            src_access_mask,
            dst_access_mask,
            src_stage,
            dst_stage,
            aspect_mask,
        })
    }

    /// Records the outcome of submitting the barrier to `new_layout`. A
    /// failure is passed on and the image keeps its layout. A transition that
    /// is not supported fails with "unsupported layout transition" even when
    /// the submission went through, since no barrier was recorded for it.
    /// Otherwise the image is now in `new_layout`.
    pub fn transition_image_layout(&mut self, new_layout: i32, submitted: Result<(), String>) -> (res: Result<(), String>)
        ensures
            submitted is Err ==> res == submitted,
            (submitted is Ok && transition_masks(old(self).image_layout, new_layout) is None)
                ==> (res matches Err(msg) && msg@ == "unsupported layout transition"@),
            (submitted is Ok && transition_masks(old(self).image_layout, new_layout) is Some)
                ==> res == submitted,
            res is Ok ==> planned_barrier(*old(self), new_layout) is Ok,
            res is Ok ==> final(self).image_layout == new_layout,
            res is Err ==> final(self).image_layout == old(self).image_layout,
            final(self).image == old(self).image,
            final(self).extent == old(self).extent,
            final(self).format == old(self).format,
    {
        if submitted.is_err() {
            return submitted;
        }
        let supported = (self.image_layout == IMAGE_LAYOUT_UNDEFINED
            && new_layout == IMAGE_LAYOUT_TRANSFER_DST_OPTIMAL)
            || (self.image_layout == IMAGE_LAYOUT_TRANSFER_DST_OPTIMAL
            && new_layout == IMAGE_LAYOUT_SHADER_READ_ONLY_OPTIMAL)
            || (self.image_layout == IMAGE_LAYOUT_UNDEFINED
            && new_layout == IMAGE_LAYOUT_DEPTH_STENCIL_ATTACHMENT_OPTIMAL);
        if !supported {
            return Err(owned("unsupported layout transition"));
        }
        self.image_layout = new_layout;
        submitted
    }
}

/// The barrier of a layout change makes the new layout's first use wait for
/// the old layout's last one: into a transfer destination it waits before
/// transfer writes, into shader reading before fragment-shader reads, into a
/// depth-stencil attachment before the early fragment tests' attachment
/// reads and writes; out of the undefined layout it waits for nothing, out of
/// a transfer destination for the transfer writes. Exactly those three
/// changes are supported, and the barrier covers the depth aspect (and the
/// stencil one for a format with stencil) of a depth-stencil attachment, the
/// color aspect otherwise.
pub proof fn lemma_layout_barrier_orders_accesses(image: Image, new_layout: i32)
    ensures
        planned_barrier(image, new_layout) is Ok <==> (
            (image.image_layout == IMAGE_LAYOUT_UNDEFINED && new_layout == IMAGE_LAYOUT_TRANSFER_DST_OPTIMAL)
            || (image.image_layout == IMAGE_LAYOUT_TRANSFER_DST_OPTIMAL && new_layout == IMAGE_LAYOUT_SHADER_READ_ONLY_OPTIMAL)
            || (image.image_layout == IMAGE_LAYOUT_UNDEFINED && new_layout == IMAGE_LAYOUT_DEPTH_STENCIL_ATTACHMENT_OPTIMAL)),
        planned_barrier(image, new_layout) matches Ok(b) ==> {
            &&& b.old_layout == image.image_layout
            &&& b.new_layout == new_layout
            &&& new_layout == IMAGE_LAYOUT_TRANSFER_DST_OPTIMAL
                ==> b.dst_access_mask == ACCESS_TRANSFER_WRITE && b.dst_stage == PIPELINE_STAGE_TRANSFER
            &&& new_layout == IMAGE_LAYOUT_SHADER_READ_ONLY_OPTIMAL
                ==> b.dst_access_mask == ACCESS_SHADER_READ && b.dst_stage == PIPELINE_STAGE_FRAGMENT_SHADER
            &&& new_layout == IMAGE_LAYOUT_DEPTH_STENCIL_ATTACHMENT_OPTIMAL
                ==> b.dst_access_mask == (ACCESS_DEPTH_STENCIL_ATTACHMENT_READ | ACCESS_DEPTH_STENCIL_ATTACHMENT_WRITE)
                    && b.dst_stage == PIPELINE_STAGE_EARLY_FRAGMENT_TESTS
            &&& image.image_layout == IMAGE_LAYOUT_UNDEFINED
                ==> b.src_access_mask == ACCESS_NONE && b.src_stage == PIPELINE_STAGE_TOP_OF_PIPE
            &&& image.image_layout == IMAGE_LAYOUT_TRANSFER_DST_OPTIMAL
                ==> b.src_access_mask == ACCESS_TRANSFER_WRITE && b.src_stage == PIPELINE_STAGE_TRANSFER
            &&& new_layout == IMAGE_LAYOUT_DEPTH_STENCIL_ATTACHMENT_OPTIMAL
                ==> b.aspect_mask == if image.format == FORMAT_D32_SFLOAT_S8_UINT || image.format == FORMAT_D24_UNORM_S8_UINT {
                    IMAGE_ASPECT_STENCIL | IMAGE_ASPECT_DEPTH
                } else {
                    IMAGE_ASPECT_DEPTH
                }
            &&& new_layout != IMAGE_LAYOUT_DEPTH_STENCIL_ATTACHMENT_OPTIMAL ==> b.aspect_mask == IMAGE_ASPECT_COLOR
        },
{
}

} // verus!
