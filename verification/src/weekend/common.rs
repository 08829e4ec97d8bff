//! Instance creation checks and the descriptor layout of the renderer.

use vstd::prelude::*;
use crate::text::owned;
use crate::vk::{DescriptorSetLayoutBinding, DESCRIPTOR_TYPE_UNIFORM_BUFFER, DESCRIPTOR_TYPE_COMBINED_IMAGE_SAMPLER};
use crate::vk::{SHADER_STAGE_VERTEX, SHADER_STAGE_FRAGMENT};
use crate::weekend::constants::vk_validation_layer_names;

verus! {

/// Whether instance creation may go on, given the outcome of the
/// validation-layer check: its error is passed on, and missing layers are an
/// error while validation is enabled.
pub fn validation_layer_gate(validation_layer_supported: Result<bool, String>) -> (res: Result<(), String>)
    ensures
        validation_layer_supported matches Err(e) ==> res == Err::<(), String>(e),
        validation_layer_supported == Ok::<bool, String>(false) ==> (res matches Err(msg)
            && msg@ == "Validation layers requested, but not available!"@),
        validation_layer_supported == Ok::<bool, String>(true) ==> res is Ok,
{
    let validation = vk_validation_layer_names();
    match validation_layer_supported {
        Err(e) => Err(e),
        Ok(supported) => {
            if validation.is_enable && !supported {
                Err(owned("Validation layers requested, but not available!"))
            } else {
                Ok(())
            }
        },
    }
}

/// The descriptor set layout of the renderer.
pub struct Descriptor;

impl Descriptor {
    /// The bindings of the layout: a uniform buffer for the vertex stage at
    /// binding 0, a combined image sampler for the fragment stage at binding 1.
    pub fn layout_bindings() -> (res: Vec<DescriptorSetLayoutBinding>)
        ensures
            res@ == seq![
                DescriptorSetLayoutBinding {
                    binding: 0,
                    descriptor_type: DESCRIPTOR_TYPE_UNIFORM_BUFFER,
                    descriptor_count: 1,
                    stage_flags: SHADER_STAGE_VERTEX,
                },
                DescriptorSetLayoutBinding {
                    binding: 1,
                    descriptor_type: DESCRIPTOR_TYPE_COMBINED_IMAGE_SAMPLER,
                    descriptor_count: 1,
                    stage_flags: SHADER_STAGE_FRAGMENT,
                },
            ],
    {
        let res = vec![
            DescriptorSetLayoutBinding {
                binding: 0,
                descriptor_type: DESCRIPTOR_TYPE_UNIFORM_BUFFER,
                descriptor_count: 1,
                stage_flags: SHADER_STAGE_VERTEX,
            },
            DescriptorSetLayoutBinding {
                binding: 1,
                descriptor_type: DESCRIPTOR_TYPE_COMBINED_IMAGE_SAMPLER,
                descriptor_count: 1,
                stage_flags: SHADER_STAGE_FRAGMENT,
            },
        ];
        res
    }
}

} // verus!
