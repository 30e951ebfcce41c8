//! Where a bone ends.
use vstd::prelude::*;

use crate::geometry::{rotate, scale, translate, Vector3};
use crate::skeleton::{bone_end, Bone, Joint};

verus! {

/// Moves `base` to the distal end of `bone` when the bone starts at `head`;
/// the position is fixed up to the sign and payload of NaN components.
pub fn calc_bone_base_from_bone_and_head(head: &Joint, bone: &Bone, base: &mut Joint)
    ensures
        final(base).position.canonical() == bone_end(head.position, *bone),
{
    let direction = rotate(bone.get_rotation(), Vector3::neg_z());
    let offset = scale(direction, bone.get_length());
    base.set_position(translate(head.get_position(), offset));
}

} // verus!
