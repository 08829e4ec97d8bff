//! The decisions of the render loop: which compute slot a frame uses, what a
//! presentation result means, and how the frame counter advances.

use vstd::prelude::*;
use crate::text::owned;
use crate::release::{Release, ListKind, releases_of, push_releases};
use crate::vk::{RESULT_ERROR_OUT_OF_DATE, RESULT_SUBOPTIMAL};

verus! {

/// What the render loop carries from one frame to the next.
#[derive(Clone, Copy, Debug, PartialEq, Eq, Structural)]
pub struct FrameState {
    /// Frames completed so far.
    pub frame_count: u32,
    /// The window was resized since the swap chain was last rebuilt.
    pub is_framebuffer_resized: bool,
}

/// What a presentation outcome means: `None` for a failure, otherwise whether
/// the swap chain has to be rebuilt. `presented` is `Ok` when the image was
/// presented, else the raw `VkResult`.
pub open spec fn present_verdict(is_framebuffer_resized: bool, presented: Result<bool, i32>) -> Option<bool> {
    match presented {
        Ok(_) => Some(is_framebuffer_resized),
        Err(code) => if code == RESULT_ERROR_OUT_OF_DATE || code == RESULT_SUBOPTIMAL {
            Some(true)
        } else {
            None
        },
    }
}

/// The state once a resize of the window has been noted.
pub open spec fn noted_resize(state: FrameState) -> FrameState {
    FrameState { is_framebuffer_resized: true, ..state }
}

/// What reacting to a presentation outcome answers, and the state it
/// leaves: a failure is an error and changes nothing; a needed rebuild
/// clears the resize note and answers `true`; otherwise the frame completes
/// and the answer is `false`.
pub open spec fn present_step(state: FrameState, presented: Result<bool, i32>) -> (Result<bool, Seq<char>>, FrameState) {
    match present_verdict(state.is_framebuffer_resized, presented) {
        None => (Err("failed to present swapchain image"@), state),
        Some(true) => (Ok(true), FrameState { is_framebuffer_resized: false, ..state }),
        Some(false) => (Ok(false), FrameState { frame_count: (state.frame_count + 1) as u32, ..state }),
    }
}

/// What completing a frame after a rebuild answers, and the state it leaves:
/// a failed rebuild is an error and changes nothing, a successful one
/// completes the frame.
pub open spec fn recreate_step(state: FrameState, recreated: bool) -> (Result<(), Seq<char>>, FrameState) {
    if recreated {
        (Ok(()), FrameState { frame_count: (state.frame_count + 1) as u32, ..state })
    } else {
        (Err("failure occurred while updating swapchain"@), state)
    }
}

/// One pass of the render loop from the presentation on: the reaction to
/// the presentation, then, where a rebuild was asked for, the completion
/// after the rebuild whose success is `recreated`.
pub open spec fn frame_step(state: FrameState, presented: Result<bool, i32>, recreated: bool) -> FrameState {
    let (answer, next) = present_step(state, presented);
    match answer {
        Ok(true) => recreate_step(next, recreated).1,
        _ => next,
    }
}

/// A resize noted before a frame whose image is presented makes that frame
/// rebuild the swap chain and clears the note, leaving the counter to the
/// rebuild.
pub proof fn lemma_noted_resize_forces_rebuild(state: FrameState, presented: Result<bool, i32>)
    requires
        presented is Ok,
    ensures
        present_step(noted_resize(state), presented)
            == (Ok::<bool, Seq<char>>(true), FrameState { frame_count: state.frame_count, is_framebuffer_resized: false }),
{
}

/// Without a noted resize, a frame whose image is presented rebuilds nothing
/// and completes at once.
pub proof fn lemma_no_resize_no_rebuild(state: FrameState, presented: Result<bool, i32>)
    requires
        presented is Ok,
        !state.is_framebuffer_resized,
        state.frame_count < u32::MAX,
    ensures
        present_step(state, presented)
            == (Ok::<bool, Seq<char>>(false), FrameState { frame_count: (state.frame_count + 1) as u32, is_framebuffer_resized: false }),
{
}

/// A frame whose image is presented, and whose rebuild succeeds where one is
/// asked for, advances the counter by exactly one and leaves no resize
/// noted, whether or not a resize was pending.
pub proof fn lemma_successful_frame_counts_once(state: FrameState, presented: Result<bool, i32>)
    requires
        presented is Ok,
        state.frame_count < u32::MAX,
    ensures
        frame_step(state, presented, true).frame_count == state.frame_count + 1,
        !frame_step(state, presented, true).is_framebuffer_resized,
{
}

impl FrameState {
    /// The state before the first frame.
    pub fn new() -> (res: Self)
        ensures
            res.frame_count == 0,
            !res.is_framebuffer_resized,
    {
        FrameState { frame_count: 0, is_framebuffer_resized: false }
    }

    /// Notes that the window was resized.
    pub fn update_framebuffer(&mut self)
        ensures
            *final(self) == noted_resize(*old(self)),
    {
        self.is_framebuffer_resized = true;
    }

    /// The compute command buffer and fence the frame uses: the frame count
    /// modulo the number of swap-chain images.
    pub fn compute_index(&self, image_count: usize) -> (res: usize)
        requires
            0 < image_count <= u32::MAX,
        ensures
            res == self.frame_count % (image_count as u32),
            res < image_count,
    {
        (self.frame_count % (image_count as u32)) as usize
    }

    /// Reacts to the outcome of presenting the frame. A failure other than an
    /// out-of-date or suboptimal swap chain is an error and changes nothing.
    /// Otherwise, when the swap chain has to be rebuilt, the resize note is
    /// cleared and the answer is `true` (the frame completes once the swap
    /// chain is rebuilt); else the frame completes now and the answer is `false`.
    pub fn after_present(&mut self, presented: Result<bool, i32>) -> (res: Result<bool, String>)
        requires
            present_verdict(old(self).is_framebuffer_resized, presented) == Some(false)
                ==> old(self).frame_count < u32::MAX,
        ensures
            crate::text::outcome_is(res, present_step(*old(self), presented).0),
            *final(self) == present_step(*old(self), presented).1,
    {
        let is_resized = match presented {
            Ok(_) => self.is_framebuffer_resized,
            Err(code) => {
                if code == RESULT_ERROR_OUT_OF_DATE || code == RESULT_SUBOPTIMAL {
                    true
                } else {
                    return Err(owned("failed to present swapchain image"));
                }
            },
        };
        if is_resized {
            self.is_framebuffer_resized = false;
            return Ok(true);
        }
        self.frame_count = self.frame_count + 1;
        Ok(false)
    }

    /// Completes a frame whose swap chain had to be rebuilt; `recreated` is
    /// the outcome of the rebuild.
    pub fn after_recreate(&mut self, recreated: Result<(), String>) -> (res: Result<(), String>)
        requires
            recreated is Ok ==> old(self).frame_count < u32::MAX,
        ensures
            crate::text::outcome_is(res, recreate_step(*old(self), recreated is Ok).0),
            *final(self) == recreate_step(*old(self), recreated is Ok).1,
    {
        match recreated {
            Ok(()) => {
                self.frame_count = self.frame_count + 1;
                Ok(())
            },
            Err(_) => Err(owned("failure occurred while updating swapchain")),
        }
    }
}

/// A buffer and the memory bound to it, by raw handle.
#[derive(Clone, Copy, Debug, PartialEq, Eq, Structural)]
pub struct BufferHandles {
    pub buffer: u64,
    pub memory: u64,
}

/// An image with its memory, sampler and view, by raw handle.
#[derive(Clone, Copy, Debug, PartialEq, Eq, Structural)]
pub struct ImageHandles {
    pub image: u64,
    pub memory: u64,
    pub sampler: u64,
    pub image_view: u64,
}

/// Every object the ray tracer owns, by raw handle.
pub struct EngineHandles {
    pub instance: u64,
    pub surface: u64,
    pub device: u64,
    pub swapchain: u64,
    pub swapchain_image_views: Vec<u64>,
    pub present_complete: u64,
    pub render_complete: u64,
    pub compute_command_pool: u64,
    pub compute_command_buffers: Vec<u64>,
    pub compute_fences: Vec<u64>,
    pub compute_image: ImageHandles,
    pub ubo_buffer: BufferHandles,
    pub compute_descriptor_set_layout: u64,
    pub compute_descriptor_pool: u64,
    pub compute_pipeline_layout: u64,
    pub compute_pipeline: u64,
    pub command_pool: u64,
    pub command_buffer: u64,
    pub command_buffers: Vec<u64>,
    pub render_fences: Vec<u64>,
    pub render_pass: u64,
    pub framebuffers: Vec<u64>,
    pub vertex_buffer: BufferHandles,
    pub index_buffer: BufferHandles,
    pub descriptor_set_layout: u64,
    pub descriptor_pool: u64,
    pub pipeline_layout: u64,
    pub graphics_pipeline: u64,
}

/// The releases of the swap chain itself: its image views, then the chain.
pub open spec fn swapchain_release_order(h: EngineHandles) -> Seq<Release> {
    releases_of(ListKind::ImageView, h.swapchain_image_views@) + seq![Release::DestroySwapchain(h.swapchain)]
}

/// What a rebuild of the swap chain releases first, in order: the
/// framebuffers, the render pass, the graphics pipeline and its layout, the
/// per-image command buffers and the one-time command buffer, and last the
/// swap chain with its image views.
pub open spec fn rebuild_release_order(h: EngineHandles) -> Seq<Release> {
    releases_of(ListKind::Framebuffer, h.framebuffers@)
        + seq![
            Release::DestroyRenderPass(h.render_pass),
            Release::DestroyPipeline(h.graphics_pipeline),
            Release::DestroyPipelineLayout(h.pipeline_layout),
        ]
        + releases_of(ListKind::CommandBuffer(h.command_pool), h.command_buffers@)
        + seq![Release::FreeCommandBuffer(h.command_pool, h.command_buffer)]
        + swapchain_release_order(h)
}

/// The releases of a buffer: the buffer, then its memory.
pub open spec fn buffer_release_order(b: BufferHandles) -> Seq<Release> {
    seq![Release::DestroyBuffer(b.buffer), Release::FreeMemory(b.memory)]
}

/// Everything the ray tracer releases when it ends, in order: the graphics
/// pipeline, its layout and descriptors; the index and vertex buffers; the
/// framebuffers, render pass, render fences and per-image command buffers;
/// the compute pipeline, its layout and descriptors; the uniform buffer,
/// unmapped first; the compute image; the compute fences, command buffers
/// and pool; the one-time command buffer and its pool; the semaphores; the
/// swap chain; and last the device, the surface and the instance.
pub open spec fn teardown_order(h: EngineHandles) -> Seq<Release> {
    seq![
        Release::DestroyPipeline(h.graphics_pipeline),
        Release::DestroyPipelineLayout(h.pipeline_layout),
        Release::DestroyDescriptorPool(h.descriptor_pool),
        Release::DestroyDescriptorSetLayout(h.descriptor_set_layout),
    ]
        + buffer_release_order(h.index_buffer)
        + buffer_release_order(h.vertex_buffer)
        + releases_of(ListKind::Framebuffer, h.framebuffers@)
        + seq![Release::DestroyRenderPass(h.render_pass)]
        + releases_of(ListKind::Fence, h.render_fences@)
        + releases_of(ListKind::CommandBuffer(h.command_pool), h.command_buffers@)
        + seq![
            Release::DestroyPipeline(h.compute_pipeline),
            Release::DestroyPipelineLayout(h.compute_pipeline_layout),
            Release::DestroyDescriptorPool(h.compute_descriptor_pool),
            Release::DestroyDescriptorSetLayout(h.compute_descriptor_set_layout),
            Release::UnmapMemory(h.ubo_buffer.memory),
        ]
        + buffer_release_order(h.ubo_buffer)
        + seq![
            Release::DestroyImageView(h.compute_image.image_view),
            Release::DestroySampler(h.compute_image.sampler),
            Release::DestroyImage(h.compute_image.image),
            Release::FreeMemory(h.compute_image.memory),
        ]
        + releases_of(ListKind::Fence, h.compute_fences@)
        + releases_of(ListKind::CommandBuffer(h.compute_command_pool), h.compute_command_buffers@)
        + seq![
            Release::DestroyCommandPool(h.compute_command_pool),
            Release::FreeCommandBuffer(h.command_pool, h.command_buffer),
            Release::DestroyCommandPool(h.command_pool),
            Release::DestroySemaphore(h.render_complete),
            Release::DestroySemaphore(h.present_complete),
        ]
        + swapchain_release_order(h)
        + seq![
            Release::DestroyDevice(h.device),
            Release::DestroySurface(h.surface),
            Release::DestroyInstance(h.instance),
        ]
}

impl EngineHandles {
    /// The objects a rebuild of the swap chain releases before it creates
    /// them anew, in the order of `rebuild_release_order`.
    pub fn rebuild_releases(&self) -> (res: Vec<Release>)
        ensures
            res@ == rebuild_release_order(*self),
    {
        let mut out: Vec<Release> = Vec::new();
        push_releases(&mut out, ListKind::Framebuffer, &self.framebuffers);
        out.push(Release::DestroyRenderPass(self.render_pass));
        out.push(Release::DestroyPipeline(self.graphics_pipeline));
        out.push(Release::DestroyPipelineLayout(self.pipeline_layout));
        push_releases(&mut out, ListKind::CommandBuffer(self.command_pool), &self.command_buffers);
        out.push(Release::FreeCommandBuffer(self.command_pool, self.command_buffer));
        push_releases(&mut out, ListKind::ImageView, &self.swapchain_image_views);
        out.push(Release::DestroySwapchain(self.swapchain));
        proof {
            assert(out@ =~= rebuild_release_order(*self));
        }
        out
    }

    /// The objects released when the ray tracer ends, in the order of
    /// `teardown_order`.
    pub fn teardown_releases(&self) -> (res: Vec<Release>)
        ensures
            res@ == teardown_order(*self),
    {
        let mut out: Vec<Release> = Vec::new();
        out.push(Release::DestroyPipeline(self.graphics_pipeline));
        out.push(Release::DestroyPipelineLayout(self.pipeline_layout));
        out.push(Release::DestroyDescriptorPool(self.descriptor_pool));
        out.push(Release::DestroyDescriptorSetLayout(self.descriptor_set_layout));
        out.push(Release::DestroyBuffer(self.index_buffer.buffer));
        out.push(Release::FreeMemory(self.index_buffer.memory));
        out.push(Release::DestroyBuffer(self.vertex_buffer.buffer));
        out.push(Release::FreeMemory(self.vertex_buffer.memory));
        push_releases(&mut out, ListKind::Framebuffer, &self.framebuffers);
        out.push(Release::DestroyRenderPass(self.render_pass));
        push_releases(&mut out, ListKind::Fence, &self.render_fences);
        push_releases(&mut out, ListKind::CommandBuffer(self.command_pool), &self.command_buffers);
        out.push(Release::DestroyPipeline(self.compute_pipeline));
        out.push(Release::DestroyPipelineLayout(self.compute_pipeline_layout));
        out.push(Release::DestroyDescriptorPool(self.compute_descriptor_pool));
        out.push(Release::DestroyDescriptorSetLayout(self.compute_descriptor_set_layout));
        out.push(Release::UnmapMemory(self.ubo_buffer.memory));
        out.push(Release::DestroyBuffer(self.ubo_buffer.buffer));
        out.push(Release::FreeMemory(self.ubo_buffer.memory));
        out.push(Release::DestroyImageView(self.compute_image.image_view));
        out.push(Release::DestroySampler(self.compute_image.sampler));
        out.push(Release::DestroyImage(self.compute_image.image));
        out.push(Release::FreeMemory(self.compute_image.memory));
        push_releases(&mut out, ListKind::Fence, &self.compute_fences);
        push_releases(&mut out, ListKind::CommandBuffer(self.compute_command_pool), &self.compute_command_buffers);
        out.push(Release::DestroyCommandPool(self.compute_command_pool));
        out.push(Release::FreeCommandBuffer(self.command_pool, self.command_buffer));
        out.push(Release::DestroyCommandPool(self.command_pool));
        out.push(Release::DestroySemaphore(self.render_complete));
        out.push(Release::DestroySemaphore(self.present_complete));
        push_releases(&mut out, ListKind::ImageView, &self.swapchain_image_views);
        out.push(Release::DestroySwapchain(self.swapchain));
        out.push(Release::DestroyDevice(self.device));
        out.push(Release::DestroySurface(self.surface));
        out.push(Release::DestroyInstance(self.instance));
        proof {
            assert(out@ =~= teardown_order(*self));
        }
        out
    }
}

/// The validation layers the ray tracer asks for: the Khronos validation
/// layer and the LunarG monitor, in that order.
pub fn requested_validation_layers() -> (res: Vec<&'static str>)
    ensures
        res.len() == 2,
        res@[0]@ == "VK_LAYER_KHRONOS_validation"@,
        res@[1]@ == "VK_LAYER_LUNARG_monitor"@,
{
    vec!["VK_LAYER_KHRONOS_validation", "VK_LAYER_LUNARG_monitor"]
}

} // verus!
