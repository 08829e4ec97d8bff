//! Vulkan objects the library's types hand back for destruction.

use vstd::prelude::*;

verus! {

/// One object to destroy or free, by its raw handle.
#[derive(Clone, Copy, Debug, PartialEq, Eq, Structural)]
pub enum Release {
    FreeMemory(u64),
    DestroyBuffer(u64),
    DestroyDescriptorSetLayout(u64),
    DestroyDescriptorPool(u64),
    DestroyDevice(u64),
    DestroySurface(u64),
    DestroyDebugUtilsMessenger(u64),
    DestroyInstance(u64),
    DestroyFramebuffer(u64),
    DestroyRenderPass(u64),
    DestroyPipeline(u64),
    DestroyPipelineLayout(u64),
    /// A command buffer of the pool given first.
    FreeCommandBuffer(u64, u64),
    DestroyCommandPool(u64),
    DestroyFence(u64),
    DestroySemaphore(u64),
    DestroyImageView(u64),
    DestroySampler(u64),
    DestroyImage(u64),
    UnmapMemory(u64),
    DestroySwapchain(u64),
}

/// A kind of object that comes in lists: what each handle of such a list
/// is released as.
#[derive(Clone, Copy, Debug, PartialEq, Eq, Structural)]
pub enum ListKind {
    Framebuffer,
    Fence,
    ImageView,
    /// Command buffers of the given pool.
    CommandBuffer(u64),
}

/// The release of one handle of a list of `kind`.
pub open spec fn release_of(kind: ListKind, handle: u64) -> Release {
    match kind {
        ListKind::Framebuffer => Release::DestroyFramebuffer(handle),
        ListKind::Fence => Release::DestroyFence(handle),
        ListKind::ImageView => Release::DestroyImageView(handle),
        ListKind::CommandBuffer(pool) => Release::FreeCommandBuffer(pool, handle),
    }
}

/// The releases of every handle of a list, in its order.
pub open spec fn releases_of(kind: ListKind, handles: Seq<u64>) -> Seq<Release> {
    handles.map_values(|h: u64| release_of(kind, h))
}

fn make_release(kind: ListKind, handle: u64) -> (res: Release)
    ensures
        res == release_of(kind, handle),
{
    match kind {
        ListKind::Framebuffer => Release::DestroyFramebuffer(handle),
        ListKind::Fence => Release::DestroyFence(handle),
        ListKind::ImageView => Release::DestroyImageView(handle),
        ListKind::CommandBuffer(pool) => Release::FreeCommandBuffer(pool, handle),
    }
}

/// Appends the release of every handle in `handles`, in order.
pub(crate) fn push_releases(out: &mut Vec<Release>, kind: ListKind, handles: &Vec<u64>)
    ensures
        final(out)@ == old(out)@ + releases_of(kind, handles@),
{
    let mut i: usize = 0;
    while i < handles.len()
        invariant
            i <= handles.len(),
            out@ == old(out)@ + releases_of(kind, handles@.take(i as int)),
        decreases handles.len() - i,
    {
        let r = make_release(kind, handles[i]);
        proof {
            assert(handles@.take(i as int + 1) =~= handles@.take(i as int).push(handles@[i as int]));
            assert(releases_of(kind, handles@.take(i as int + 1))
                =~= releases_of(kind, handles@.take(i as int)).push(r));
        }
        out.push(r);
        i = i + 1;
    }
    proof {
        assert(handles@.take(i as int) =~= handles@);
    }
}

} // verus!
