//! Descriptor bindings, the pool and layout made from them, and the writes
//! that fill descriptor sets.

use vstd::prelude::*;
use std::collections::HashMap;
use crate::text::owned;
use crate::release::Release;
use crate::vk::{DescriptorPoolSize, DescriptorSetLayoutBinding};

verus! {

/// One binding of a descriptor set.
#[derive(Clone, Copy, Debug, PartialEq, Eq, Structural)]
pub struct DescriptorBinding {
    pub binding: u32,
    pub descriptor_count: u32,
    pub type_: i32,
    pub stage: u32,
}

/// The pool size a binding needs: room for its descriptors in every set.
pub open spec fn pool_size_for(binding: DescriptorBinding, max_sets: u32) -> DescriptorPoolSize {
    DescriptorPoolSize { ty: binding.type_, descriptor_count: (binding.descriptor_count * max_sets) as u32 }
}

/// The pool sizes for `max_sets` sets of the bindings, one per binding.
pub fn pool_sizes(descriptor_bindings: &Vec<DescriptorBinding>, max_sets: u32) -> (res: Vec<DescriptorPoolSize>)
    requires
        forall|i: int| 0 <= i < descriptor_bindings.len()
            ==> #[trigger] descriptor_bindings@[i].descriptor_count * max_sets <= u32::MAX,
    ensures
        res.len() == descriptor_bindings.len(),
        forall|i: int| 0 <= i < descriptor_bindings.len()
            ==> #[trigger] res@[i] == pool_size_for(descriptor_bindings@[i], max_sets),
{
    let mut sizes: Vec<DescriptorPoolSize> = Vec::new();
    let mut i: usize = 0;
    while i < descriptor_bindings.len()
        invariant
            i <= descriptor_bindings.len(),
            forall|k: int| 0 <= k < descriptor_bindings.len()
                ==> #[trigger] descriptor_bindings@[k].descriptor_count * max_sets <= u32::MAX,
            sizes.len() == i,
            forall|k: int| 0 <= k < i ==> #[trigger] sizes@[k] == pool_size_for(descriptor_bindings@[k], max_sets),
        decreases descriptor_bindings.len() - i,
    {
        let binding = descriptor_bindings[i];
        assert(binding.descriptor_count * max_sets <= u32::MAX);
        sizes.push(DescriptorPoolSize { ty: binding.type_, descriptor_count: binding.descriptor_count * max_sets });
        i = i + 1;
    }
    sizes
}

/// The layout binding of a descriptor binding.
pub open spec fn layout_binding_for(binding: DescriptorBinding) -> DescriptorSetLayoutBinding {
    DescriptorSetLayoutBinding {
        binding: binding.binding,
        descriptor_type: binding.type_,
        descriptor_count: binding.descriptor_count,
        stage_flags: binding.stage,
    }
}

/// The layout bindings of a set layout, one per binding.
pub fn layout_bindings(descriptor_bindings: &Vec<DescriptorBinding>) -> (res: Vec<DescriptorSetLayoutBinding>)
    ensures
        res.len() == descriptor_bindings.len(),
        forall|i: int| 0 <= i < descriptor_bindings.len()
            ==> #[trigger] res@[i] == layout_binding_for(descriptor_bindings@[i]),
{
    let mut bindings: Vec<DescriptorSetLayoutBinding> = Vec::new();
    let mut i: usize = 0;
    while i < descriptor_bindings.len()
        invariant
            i <= descriptor_bindings.len(),
            bindings.len() == i,
            forall|k: int| 0 <= k < i ==> #[trigger] bindings@[k] == layout_binding_for(descriptor_bindings@[k]),
        decreases descriptor_bindings.len() - i,
    {
        let binding = descriptor_bindings[i];
        bindings.push(DescriptorSetLayoutBinding {
            binding: binding.binding,
            descriptor_type: binding.type_,
            descriptor_count: binding.descriptor_count,
            stage_flags: binding.stage,
        });
        i = i + 1;
    }
    bindings
}

/// A descriptor pool and set layout made from the same bindings.
#[derive(Clone, Copy, Debug, PartialEq, Eq, Structural)]
pub struct DescriptorSetManager {
    pub pool: u64,
    pub layout: u64,
}

impl DescriptorSetManager {
    /// Checks the bindings before the pool and layout are made. Each binding
    /// is entered in a map by its number; a collision is reported when
    /// the map had no entry for that number yet, so it passes only when
    /// there are no bindings at all.
    pub fn check_bindings(descriptor_bindings: &Vec<DescriptorBinding>) -> (res: Result<(), String>)
        ensures
            descriptor_bindings.len() == 0 ==> res is Ok,
            descriptor_bindings.len() > 0 ==> (res matches Err(msg) && msg@ == "binding collision"@),
    {
        broadcast use vstd::std_specs::hash::group_hash_axioms;
        let mut bindings: HashMap<u32, i32> = HashMap::new();
        let mut i: usize = 0;
        while i < descriptor_bindings.len()
            invariant
                i <= descriptor_bindings.len(),
                i == 0,
                bindings@ == Map::<u32, i32>::empty(),
            decreases descriptor_bindings.len() - i,
        {
            let binding = descriptor_bindings[i];
            match bindings.insert(binding.binding, binding.type_) {
                Some(_) => {},
                None => return Err(owned("binding collision")),
            }
            i = i + 1;
        }
        Ok(())
    }

    /// The objects to release, in order: the layout, then the pool.
    pub fn cleanup(dsm: &Self) -> (res: Vec<Release>)
        ensures
            res@ == seq![Release::DestroyDescriptorSetLayout(dsm.layout), Release::DestroyDescriptorPool(dsm.pool)],
    {
        vec![Release::DestroyDescriptorSetLayout(dsm.layout), Release::DestroyDescriptorPool(dsm.pool)]
    }
}

/// A write into one binding of one descriptor set; the caller attaches the
/// buffer, image or acceleration-structure information.
#[derive(Clone, Copy, Debug, PartialEq, Eq, Structural)]
pub struct DescriptorWrite {
    pub dst_set: u64,
    pub dst_binding: u32,
    pub dst_array_element: u32,
    pub descriptor_type: i32,
}

/// Descriptor sets allocated with one layout, and the type of each binding
/// of that layout.
pub struct DescriptorSets {
    pub binding_types: HashMap<u32, i32>,
    pub descriptor_sets: Vec<u64>,
}

/// `size` copies of a set layout, one per set to allocate.
pub fn set_layouts(layout: u64, size: usize) -> (res: Vec<u64>)
    ensures
        res.len() == size,
        forall|i: int| 0 <= i < size ==> #[trigger] res@[i] == layout,
{
    let mut layouts: Vec<u64> = Vec::new();
    let mut i: usize = 0;
    while i < size
        invariant
            i <= size,
            layouts.len() == i,
            forall|k: int| 0 <= k < i ==> #[trigger] layouts@[k] == layout,
        decreases size - i,
    {
        layouts.push(layout);
        i = i + 1;
    }
    layouts
}

impl DescriptorSets {
    /// The type of a binding of the layout.
    pub fn get_binding_type(&self, binding: u32) -> (res: Result<i32, String>)
        ensures
            self.binding_types@.contains_key(binding) ==> res == Ok::<i32, String>(self.binding_types@[binding]),
            !self.binding_types@.contains_key(binding) ==> (res matches Err(msg) && msg@ == "binding not found"@),
    {
        broadcast use vstd::std_specs::hash::group_hash_axioms;
        match self.binding_types.get(&binding) {
            Some(binding_type) => Ok(*binding_type),
            None => Err(owned("binding not found")),
        }
    }

    /// The write into `binding` of the `index`-th set; the binding must be
    /// one of the layout's.
    pub fn write_descriptor(&self, index: usize, binding: u32) -> (res: Result<DescriptorWrite, String>)
        requires
            index < self.descriptor_sets.len(),
        ensures
            self.binding_types@.contains_key(binding) ==> res == Ok::<DescriptorWrite, String>(DescriptorWrite {
                dst_set: self.descriptor_sets@[index as int],
                dst_binding: binding,
                dst_array_element: 0,
                descriptor_type: self.binding_types@[binding],
            }),
            !self.binding_types@.contains_key(binding) ==> (res matches Err(msg) && msg@ == "binding not found"@),
    {
        let binding_type = self.get_binding_type(binding)?;
        Ok(DescriptorWrite {
            dst_set: self.descriptor_sets[index],
            dst_binding: binding,
            dst_array_element: 0,
            descriptor_type: binding_type,
        })
    }
}

} // verus!
