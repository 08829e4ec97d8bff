//! Choosing a memory type for an allocation.

use vstd::prelude::*;
use crate::vk::{MemoryProperties, has_flags, contains_flags};
use crate::text::owned;

verus! {

/// Memory type `i` is allowed by the resource's `type_filter` bit mask and
/// has every property bit that the allocation asks for.
pub open spec fn suitable_memory_type(type_filter: u32, type_flags: Seq<u32>, properties: u32, i: u32) -> bool {
    &&& type_filter & (1u32 << i) != 0
    &&& has_flags(type_flags[i as int], properties)
}

/// The memory properties are readable for the first `memory_type_count`
/// types, and that count is within Vulkan's limit of 32 types.
pub open spec fn memory_properties_wf(props: &MemoryProperties) -> bool {
    &&& props.memory_type_count <= 32
    &&& props.memory_type_count <= props.memory_type_flags.len()
}

/// `res` is the lowest suitable memory type index, or `None` when no type
/// below `memory_type_count` is suitable.
pub open spec fn is_first_suitable_memory_type(
    type_filter: u32,
    props: &MemoryProperties,
    properties: u32,
    res: Option<u32>,
) -> bool {
    match res {
        Some(i) => {
            &&& i < props.memory_type_count
            &&& suitable_memory_type(type_filter, props.memory_type_flags@, properties, i)
            &&& forall|j: u32| j < i ==> !suitable_memory_type(type_filter, props.memory_type_flags@, properties, j)
        },
        None => forall|j: u32| j < props.memory_type_count
            ==> !suitable_memory_type(type_filter, props.memory_type_flags@, properties, j),
    }
}

/// The lowest memory type index that `type_filter` allows and whose property
/// flags contain `properties`.
pub fn first_suitable_memory_type(type_filter: u32, props: &MemoryProperties, properties: u32) -> (res: Option<u32>)
    requires
        memory_properties_wf(props),
    ensures
        is_first_suitable_memory_type(type_filter, props, properties, res),
{
    let count = props.memory_type_count;
    let mut index: u32 = 0;
    while index < count
        invariant
            memory_properties_wf(props),
            count == props.memory_type_count,
            index <= count,
            forall|j: u32| j < index ==> !suitable_memory_type(type_filter, props.memory_type_flags@, properties, j),
        decreases count - index,
    {
        if type_filter & (1u32 << index) != 0 && contains_flags(props.memory_type_flags[index as usize], properties) {
            return Some(index);
        }
        index = index + 1;
    }
    None
}

/// Finds the memory type for an allocation: the lowest index below
/// `memory_type_count` whose bit is set in `type_filter` and whose property
/// flags contain `properties`; an error when there is none.
pub fn find_memory_type_index(type_filter: u32, memory_properties: &MemoryProperties, properties: u32) -> (res: Result<u32, String>)
    requires
        memory_properties_wf(memory_properties),
    ensures
        match res {
            Ok(i) => is_first_suitable_memory_type(type_filter, memory_properties, properties, Some(i)),
            Err(msg) => {
                &&& is_first_suitable_memory_type(type_filter, memory_properties, properties, None)
                &&& msg@ == "unable to find suitable memory type"@
            },
        },
{
    match first_suitable_memory_type(type_filter, memory_properties, properties) {
        Some(index) => Ok(index),
        None => Err(owned("unable to find suitable memory type")),
    }
}

/// Same search as [`find_memory_type_index`], with the error text of the
/// device-memory allocator.
pub fn find_memory_type(memory_properties: &MemoryProperties, type_filter: u32, property_flags: u32) -> (res: Result<u32, String>)
    requires
        memory_properties_wf(memory_properties),
    ensures
        match res {
            Ok(i) => is_first_suitable_memory_type(type_filter, memory_properties, property_flags, Some(i)),
            Err(msg) => {
                &&& is_first_suitable_memory_type(type_filter, memory_properties, property_flags, None)
                &&& msg@ == "failed to find suitable memory type"@
            },
        },
{
    match first_suitable_memory_type(type_filter, memory_properties, property_flags) {
        Some(index) => Ok(index),
        None => Err(owned("failed to find suitable memory type")),
    }
}

} // verus!

verus! {

/// The search has one answer: at most one memory type is the lowest
/// suitable one, and a search cannot both find one and find none.
pub proof fn lemma_first_suitable_memory_type_unique(
    type_filter: u32,
    props: &MemoryProperties,
    properties: u32,
    a: Option<u32>,
    b: Option<u32>,
)
    requires
        is_first_suitable_memory_type(type_filter, props, properties, a),
        is_first_suitable_memory_type(type_filter, props, properties, b),
    ensures
        a == b,
{
    match (a, b) {
        (Some(i), Some(j)) => {
            if i < j {
                assert(!suitable_memory_type(type_filter, props.memory_type_flags@, properties, i));
            } else if j < i {
                assert(!suitable_memory_type(type_filter, props.memory_type_flags@, properties, j));
            }
        },
        (Some(i), None) => {
            assert(!suitable_memory_type(type_filter, props.memory_type_flags@, properties, i));
        },
        (None, Some(j)) => {
            assert(!suitable_memory_type(type_filter, props.memory_type_flags@, properties, j));
        },
        (None, None) => {},
    }
}

} // verus!
