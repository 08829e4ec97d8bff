//! Vulkan version numbers and result codes.

use vstd::prelude::*;
use crate::text::{concat, decimal, u32_to_decimal, vk_result_text, vk_result_to_string};
use crate::vk::RESULT_SUCCESS;

verus! {

/// `ash::vk::api_version_major`: bits 22 to 28 of a packed version.
#[verifier::external_body]
fn api_version_major(version: u32) -> (res: u32)
    ensures
        res == (version >> 22u32) & 0x7fu32,
{
    ash::vk::api_version_major(version)
}

/// `ash::vk::api_version_minor`: bits 12 to 21 of a packed version.
#[verifier::external_body]
fn api_version_minor(version: u32) -> (res: u32)
    ensures
        res == (version >> 12u32) & 0x3ffu32,
{
    ash::vk::api_version_minor(version)
}

/// `ash::vk::api_version_patch`: bits 0 to 11 of a packed version.
#[verifier::external_body]
fn api_version_patch(version: u32) -> (res: u32)
    ensures
        res == version & 0xfffu32,
{
    ash::vk::api_version_patch(version)
}

/// NVIDIA's PCI vendor id.
pub const NVIDIA_VENDOR_ID: u32 = 0x10DE;

/// A Vulkan version split into its parts.
#[derive(Clone, Copy, Debug, PartialEq, Eq, Structural)]
pub struct Version {
    pub major: u32,
    pub minor: u32,
    pub patch: u32,
}

impl Version {
    /// Splits a packed Vulkan version.
    pub fn new(version: u32) -> (res: Self)
        ensures
            res.major == (version >> 22u32) & 0x7fu32,
            res.minor == (version >> 12u32) & 0x3ffu32,
            res.patch == version & 0xfffu32,
    {
        Self {
            major: api_version_major(version),
            minor: api_version_minor(version),
            patch: api_version_patch(version),
        }
    }

    /// Splits a packed driver version, with NVIDIA's parts shifted: the minor
    /// part right by 2 and the patch part right by 4 for NVIDIA's vendor id.
    pub fn nv_new(version: u32, vendor_id: u32) -> (res: Self)
        ensures
            res.major == (version >> 22u32) & 0x7fu32,
            res.minor == ((version >> 12u32) & 0x3ffu32) >> (if vendor_id == NVIDIA_VENDOR_ID { 2u32 } else { 0u32 }),
            res.patch == (version & 0xfffu32) >> (if vendor_id == NVIDIA_VENDOR_ID { 4u32 } else { 0u32 }),
    {
        let nvidia = vendor_id == NVIDIA_VENDOR_ID;
        let major = api_version_major(version);
        assert(major >> 0u32 == major) by (bit_vector);
        Self {
            major: major >> 0u32,
            minor: api_version_minor(version) >> (if nvidia { 2u32 } else { 0u32 }),
            patch: api_version_patch(version) >> (if nvidia { 4u32 } else { 0u32 }),
        }
    }

    /// The version written `major.minor.patch`.
    pub open spec fn text(&self) -> Seq<char> {
        decimal(self.major as nat) + "."@ + decimal(self.minor as nat) + "."@ + decimal(self.patch as nat)
    }

    /// The version written `major.minor.patch` (its `Display`).
    pub fn to_string(&self) -> (res: String)
        ensures
            res@ == self.text(),
    {
        let major = u32_to_decimal(self.major);
        let minor = u32_to_decimal(self.minor);
        let patch = u32_to_decimal(self.patch);
        let s = concat(major.as_str(), ".");
        let s = concat(s.as_str(), minor.as_str());
        let s = concat(s.as_str(), ".");
        let s = concat(s.as_str(), patch.as_str());
        s
    }
}

/// Turns a Vulkan result code into a `Result`: success for `VK_SUCCESS`,
/// otherwise an error naming the operation and describing the code.
pub fn check(result: i32, operation: &str) -> (res: Result<(), String>)
    ensures
        result == RESULT_SUCCESS ==> res is Ok,
        result != RESULT_SUCCESS ==> (res matches Err(msg)
            && msg@ == "failed to "@ + operation@ + " ("@ + vk_result_text(result) + ")"@),
{
    if result == RESULT_SUCCESS {
        Ok(())
    } else {
        let described = vk_result_to_string(result);
        let s = concat("failed to ", operation);
        let s = concat(s.as_str(), " (");
        let s = concat(s.as_str(), described.as_str());
        let s = concat(s.as_str(), ")");
        Err(s)
    }
}

} // verus!
