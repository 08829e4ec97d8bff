//! Choices made while setting up the compute ray tracer.

pub mod device;
pub mod image;
pub mod instance;
pub mod shader;
pub mod swapchain;

pub use crate::memory::find_memory_type_index;
