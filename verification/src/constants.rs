//! Fixed settings of the compute ray tracer.

use vstd::prelude::*;

verus! {

pub const WIDTH: u32 = 1024;
pub const HEIGHT: u32 = WIDTH;
pub const APPLICATION_NAME: &'static str = "Ray Tracing in Vulkan";
/// Vulkan's packed version 0.1.0 (variant 0).
pub const APPLICATION_VERSION: u32 = 4096;
pub const ENGINE_NAME: &'static str = "Ray Tracer (Vulkan-Compute)";
/// Vulkan's packed version 0.1.0 (variant 0).
pub const ENGINE_VERSION: u32 = 4096;
/// Vulkan's packed version 1.2.0 (variant 0), the version assumed when the
/// loader cannot tell which one it supports.
pub const API_VERSION_1_2: u32 = 4202496;
/// Two triangles covering the rectangle of four vertices.
pub const RAINBOW_RECTANGLE_INDICES: [u32; 6] = [3, 0, 1, 3, 1, 2];

} // verus!
