//! The attachments of the swap-chain framebuffers.

use vstd::prelude::*;

verus! {

/// The attachments of the framebuffer for one swap-chain image view: the
/// color attachment and the depth attachment when there are such, then the
/// image view itself. Image views are given by their raw handles.
pub fn framebuffer_attachments(color_image_view: Option<u64>, depth_image_view: Option<u64>, image_view: u64) -> (res: Vec<u64>)
    ensures
        res@ == (match color_image_view { Some(c) => seq![c], None => Seq::<u64>::empty() })
            + (match depth_image_view { Some(d) => seq![d], None => Seq::<u64>::empty() })
            + seq![image_view],
{
    let mut attachments: Vec<u64> = Vec::new();
    if color_image_view.is_some() {
        attachments.push(color_image_view.unwrap());
    }
    if depth_image_view.is_some() {
        attachments.push(depth_image_view.unwrap());
    }
    attachments.push(image_view);
    assert(attachments@ =~= (match color_image_view { Some(c) => seq![c], None => Seq::<u64>::empty() })
        + (match depth_image_view { Some(d) => seq![d], None => Seq::<u64>::empty() })
        + seq![image_view]);
    attachments
}

} // verus!
