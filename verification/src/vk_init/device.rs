//! The logical device of the compute ray tracer.

use vstd::prelude::*;
use crate::QueueFamilyIndices;
use crate::lists::append_new;

verus! {

/// The queue families to create queues in: the compute, graphics and present
/// families, in that order, each once.
pub fn unique_queue_indices(queue_family_indices: &QueueFamilyIndices) -> (res: Vec<u32>)
    ensures
        res@ == append_new(Seq::<u32>::empty(), seq![
            queue_family_indices.compute_family_index,
            queue_family_indices.graphics_family_index,
            queue_family_indices.present_family_index,
        ]),
{
    let candidates: Vec<u32> = vec![
        queue_family_indices.compute_family_index,
        queue_family_indices.graphics_family_index,
        queue_family_indices.present_family_index,
    ];
    let ghost all = candidates@;
    let mut queue_indices: Vec<u32> = Vec::new();
    let mut k: usize = 0;
    while k < candidates.len()
        invariant
            k <= candidates.len(),
            candidates@ == all,
            queue_indices@ == append_new(Seq::<u32>::empty(), all.take(k as int)),
        decreases candidates.len() - k,
    {
        let queue_index = candidates[k];
        let mut present = false;
        let mut m: usize = 0;
        while m < queue_indices.len()
            invariant
                m <= queue_indices.len(),
                present == exists|t: int| 0 <= t < m && queue_indices@[t] == queue_index,
            decreases queue_indices.len() - m,
        {
            if queue_indices[m] == queue_index {
                present = true;
            }
            m = m + 1;
        }
        if !present {
            queue_indices.push(queue_index);
        }
        proof {
            let items = all.take(k + 1);
            assert(items.drop_last() == all.take(k as int));
            assert(items.last() == queue_index);
        }
        k = k + 1;
    }
    assert(all.take(k as int) == all);
    queue_indices
}

/// The flags a fence is created with: the given ones, or none.
pub fn fence_flags(flags: Option<u32>) -> (res: u32)
    ensures
        res == match flags { Some(f) => f, None => 0 },
{
    match flags {
        Some(fence_flags) => fence_flags,
        None => 0,
    }
}

} // verus!
