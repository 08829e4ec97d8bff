//! The application's Vulkan objects and the order they are released in.

use vstd::prelude::*;
use crate::release::Release;
use crate::vk::{MESSAGE_SEVERITY_INFO, MESSAGE_SEVERITY_WARNING, MESSAGE_SEVERITY_ERROR};

verus! {

/// The application's instance, debug messenger, surface and device, by raw
/// handle.
#[derive(Clone, Copy, Debug, PartialEq, Eq, Structural)]
pub struct App {
    pub instance: u64,
    pub debug_utils_messenger: u64,
    pub surface: u64,
    pub device: u64,
}

impl App {
    /// The validation layers the application asks for: the Khronos layer
    /// when validation is enabled, none otherwise.
    pub fn validation_layers(enable_validation_layers: bool) -> (res: Vec<&'static str>)
        ensures
            enable_validation_layers ==> res.len() == 1 && res@[0]@ == "VK_LAYER_KHRONOS_validation"@,
            !enable_validation_layers ==> res.len() == 0,
    {
        if enable_validation_layers {
            vec!["VK_LAYER_KHRONOS_validation"]
        } else {
            Vec::new()
        }
    }

    /// The severities the application's debug messenger reports: info,
    /// warnings and errors.
    pub fn messenger_severities() -> (res: u32)
        ensures
            res == MESSAGE_SEVERITY_INFO | MESSAGE_SEVERITY_WARNING | MESSAGE_SEVERITY_ERROR,
    {
        MESSAGE_SEVERITY_INFO | MESSAGE_SEVERITY_WARNING | MESSAGE_SEVERITY_ERROR
    }

    /// Tears down the swap chain's resources; the application keeps none
    /// beyond its device, so there is nothing to release.
    pub fn delete_swapchain(&self) {
    }

    /// The objects to release when the application ends, in order: the
    /// device, the surface, the debug messenger, and last the instance.
    pub fn teardown(&self) -> (res: Vec<Release>)
        ensures
            res@ == seq![
                Release::DestroyDevice(self.device),
                Release::DestroySurface(self.surface),
                Release::DestroyDebugUtilsMessenger(self.debug_utils_messenger),
                Release::DestroyInstance(self.instance),
            ],
    {
        vec![
            Release::DestroyDevice(self.device),
            Release::DestroySurface(self.surface),
            Release::DestroyDebugUtilsMessenger(self.debug_utils_messenger),
            Release::DestroyInstance(self.instance),
        ]
    }
}

/// A host-visible buffer that holds the uniform values of a frame, and its
/// memory.
#[derive(Clone, Copy, Debug, PartialEq, Eq, Structural)]
pub struct UniformBuffer {
    pub buffer: u64,
    pub memory: u64,
}

impl UniformBuffer {
    /// The objects to release, in order: the memory, then the buffer.
    pub fn cleanup(ub: &Self) -> (res: Vec<Release>)
        ensures
            res@ == seq![Release::FreeMemory(ub.memory), Release::DestroyBuffer(ub.buffer)],
    {
        vec![Release::FreeMemory(ub.memory), Release::DestroyBuffer(ub.buffer)]
    }
}

} // verus!
