//! The rig: bones and joints held in tables indexed by their ids, a tree of
//! `(bone, joint)` ids that gives the hierarchy, and the forward-kinematics
//! evaluator that derives every joint position from the bones.
use vstd::prelude::*;

use crate::geometry::{canon, rotated, scaled, summed, Quaternion, Vector3};
use crate::maths::calc_bone_base_from_bone_and_head;
use crate::tree::BinaryTree;

verus! {

pub const BONE_COUNT: usize = 9;

pub const JOINT_COUNT: usize = 8;

/// The one way evaluation fails: a node without a joint has children.
#[derive(Clone, Copy, Debug, PartialEq, Eq, Structural)]
pub enum SkeletonError {
    InvalidStructure,
}

/// The joints of the rig: points of interest at a bone's distal end.
#[derive(Clone, Copy, Debug, PartialEq, Eq, Structural)]
pub enum JointId {
    Head,
    Hips,
    LeftHipJoint,
    LeftKnee,
    LeftAnkle,
    RightHipJoint,
    RightKnee,
    RightAnkle,
}

impl JointId {
    /// The slot of this joint in the joints table.
    pub open spec fn slot(self) -> int {
        match self {
            JointId::Head => 0,
            JointId::Hips => 1,
            JointId::LeftHipJoint => 2,
            JointId::LeftKnee => 3,
            JointId::LeftAnkle => 4,
            JointId::RightHipJoint => 5,
            JointId::RightKnee => 6,
            JointId::RightAnkle => 7,
        }
    }

    pub fn index(self) -> (r: usize)
        ensures
            r as int == self.slot(),
            r < JOINT_COUNT,
    {
        match self {
            JointId::Head => 0,
            JointId::Hips => 1,
            JointId::LeftHipJoint => 2,
            JointId::LeftKnee => 3,
            JointId::LeftAnkle => 4,
            JointId::RightHipJoint => 5,
            JointId::RightKnee => 6,
            JointId::RightAnkle => 7,
        }
    }
}

/// The bones of the rig.
#[derive(Clone, Copy, Debug, PartialEq, Eq, Structural)]
pub enum BoneId {
    Spine,
    LeftHipOffset,
    LeftUpperLeg,
    LeftLowerLeg,
    LeftFoot,
    RightHipOffset,
    RightUpperLeg,
    RightLowerLeg,
    RightFoot,
}

impl BoneId {
    /// The slot of this bone in the bones table.
    pub open spec fn slot(self) -> int {
        match self {
            BoneId::Spine => 0,
            BoneId::LeftHipOffset => 1,
            BoneId::LeftUpperLeg => 2,
            BoneId::LeftLowerLeg => 3,
            BoneId::LeftFoot => 4,
            BoneId::RightHipOffset => 5,
            BoneId::RightUpperLeg => 6,
            BoneId::RightLowerLeg => 7,
            BoneId::RightFoot => 8,
        }
    }

    pub fn index(self) -> (r: usize)
        ensures
            r as int == self.slot(),
            r < BONE_COUNT,
    {
        match self {
            BoneId::Spine => 0,
            BoneId::LeftHipOffset => 1,
            BoneId::LeftUpperLeg => 2,
            BoneId::LeftLowerLeg => 3,
            BoneId::LeftFoot => 4,
            BoneId::RightHipOffset => 5,
            BoneId::RightUpperLeg => 6,
            BoneId::RightLowerLeg => 7,
            BoneId::RightFoot => 8,
        }
    }
}

/// A tracked point; its position is in world space.
#[derive(Clone, Copy, Debug, PartialEq, Eq, Structural)]
pub struct Joint {
    pub position: Vector3,
}

impl Joint {
    pub fn new(position: Vector3) -> (r: Joint)
        ensures
            r.position == position,
    {
        Joint { position }
    }

    pub fn get_position(&self) -> (r: Vector3)
        ensures
            r == self.position,
    {
        self.position
    }

    pub fn set_position(&mut self, position: Vector3)
        ensures
            final(self).position == position,
    {
        self.position = position;
    }
}

impl Default for Joint {
    fn default() -> (r: Joint)
        ensures
            r.position == Vector3::zero(),
    {
        Joint { position: Vector3::origin() }
    }
}

/// A rigid segment: its length and its rotation away from the rest direction.
#[derive(Clone, Copy, Debug, PartialEq, Eq, Structural)]
pub struct Bone {
    pub length: u32,
    pub rotation: Quaternion,
}

impl Bone {
    pub fn new(length: u32, rotation: Quaternion) -> (r: Bone)
        ensures
            r.length == length,
            r.rotation == rotation,
    {
        Bone { length, rotation }
    }

    pub fn get_length(&self) -> (r: u32)
        ensures
            r == self.length,
    {
        self.length
    }

    pub fn get_rotation(&self) -> (r: Quaternion)
        ensures
            r == self.rotation,
    {
        self.rotation
    }

    pub fn set_length(&mut self, length: u32)
        ensures
            final(self).length == length,
            final(self).rotation == old(self).rotation,
    {
        self.length = length;
    }

    pub fn set_rotation(&mut self, rotation: Quaternion)
        ensures
            final(self).rotation == rotation,
            final(self).length == old(self).length,
    {
        self.rotation = rotation;
    }
}

impl Default for Bone {
    fn default() -> (r: Bone)
        ensures
            r.length == crate::geometry::ZERO_BITS,
            r.rotation == Quaternion::unit(),
    {
        Bone { length: crate::geometry::ZERO_BITS, rotation: Quaternion::identity() }
    }
}

/// One bone per `BoneId`, at the id's slot.
#[derive(Debug)]
pub struct Bones([Bone; BONE_COUNT]);

impl View for Bones {
    type V = Seq<Bone>;

    closed spec fn view(&self) -> Seq<Bone> {
        self.0@
    }
}

impl Bones {
    /// There is one bone for each id.
    pub proof fn lemma_len(&self)
        ensures
            self@.len() == BONE_COUNT,
    {
    }

    pub fn get(&self, id: BoneId) -> (r: &Bone)
        ensures
            *r == self@[id.slot()],
    {
        &self.0[id.index()]
    }

    pub fn get_mut(&mut self, id: BoneId) -> (r: &mut Bone)
        ensures
            *r == old(self)@[id.slot()],
            final(self)@ == old(self)@.update(id.slot(), *final(r)),
    {
        &mut self.0[id.index()]
    }

    pub fn set(&mut self, id: BoneId, bone: Bone)
        ensures
            final(self)@ == old(self)@.update(id.slot(), bone),
    {
        self.0[id.index()] = bone;
    }
}

impl Default for Bones {
    fn default() -> (r: Bones)
        ensures
            r@.len() == BONE_COUNT,
            forall|i: int| 0 <= i < BONE_COUNT ==> #[trigger] r@[i] == (Bone { length: 0, rotation: Quaternion::unit() }),
    {
        Bones([Bone::default(); BONE_COUNT])
    }
}

/// One joint per `JointId`, at the id's slot.
#[derive(Debug)]
pub struct Joints([Joint; JOINT_COUNT]);

impl View for Joints {
    type V = Seq<Joint>;

    closed spec fn view(&self) -> Seq<Joint> {
        self.0@
    }
}

impl Joints {
    /// There is one joint for each id.
    pub proof fn lemma_len(&self)
        ensures
            self@.len() == JOINT_COUNT,
    {
    }

    pub fn get(&self, id: JointId) -> (r: &Joint)
        ensures
            *r == self@[id.slot()],
    {
        &self.0[id.index()]
    }

    pub fn get_mut(&mut self, id: JointId) -> (r: &mut Joint)
        ensures
            *r == old(self)@[id.slot()],
            final(self)@ == old(self)@.update(id.slot(), *final(r)),
    {
        &mut self.0[id.index()]
    }

    pub fn set(&mut self, id: JointId, joint: Joint)
        ensures
            final(self)@ == old(self)@.update(id.slot(), joint),
    {
        self.0[id.index()] = joint;
    }

    pub fn as_mut_slice(&mut self) -> (r: &mut [Joint])
        ensures
            r@ == old(self)@,
            r@.len() == JOINT_COUNT,
            final(self)@ == final(r)@,
    {
        &mut self.0
    }
}

impl Default for Joints {
    fn default() -> (r: Joints)
        ensures
            r@.len() == JOINT_COUNT,
            forall|i: int| 0 <= i < JOINT_COUNT ==> #[trigger] r@[i] == (Joint { position: Vector3::zero() }),
    {
        Joints([Joint::default(); JOINT_COUNT])
    }
}

/// The hierarchy of a rig: each node names its bone and, where the bone's
/// distal end is tracked, the joint there.
pub type Rig = BinaryTree<(BoneId, Option<JointId>)>;

/// Where a bone's distal end lies when its proximal end is at `head`:
/// `head + rotate(rotation, (0, 0, -1)) * length`. Rotations act as glam's
/// do: actively, in a right-handed frame, so a turn about the z axis leaves
/// the rest direction in place and a quarter turn of -90 degrees about the y
/// axis takes it to `(1, 0, 0)`. Components are read through `canon`: a NaN
/// stands for every NaN.
pub open spec fn bone_end(head: Vector3, bone: Bone) -> Vector3 {
    summed(
        head.canonical(),
        scaled(rotated(bone.rotation.canonical(), Vector3::rest_direction().canonical()), canon(bone.length)),
    )
}

/// The joints table with every position read through `canon`.
pub open spec fn canonical_joints(joints: Seq<Joint>) -> Seq<Joint> {
    joints.map_values(|j: Joint| Joint { position: j.position.canonical() })
}

/// A pass depends on its head only through the head's canonical bits.
pub proof fn lemma_written_head(t: Rig, bones: Seq<Bone>, h1: Vector3, h2: Vector3, joints: Seq<Joint>)
    requires
        h1.canonical() == h2.canonical(),
    ensures
        written(t, bones, h1, joints) == written(t, bones, h2, joints),
{
    assert(bone_end(h1, bones[t.value.0.slot()]) == bone_end(h2, bones[t.value.0.slot()]));
}

/// Every node without a joint is a leaf.
pub open spec fn well_formed(t: Rig) -> bool
    decreases t,
{
    &&& (t.value.1 is None ==> t.left is None && t.right is None)
    &&& match t.left {
        Some(l) => well_formed(*l),
        None => true,
    }
    &&& match t.right {
        Some(r) => well_formed(*r),
        None => true,
    }
}

/// Whether a subtree, where there is one, is well formed.
pub open spec fn child_well_formed(c: Option<Box<Rig>>) -> bool {
    match c {
        Some(x) => well_formed(*x),
        None => true,
    }
}

/// The joints table after a depth-first, pre-order pass over `t` from `head`:
/// each node with a joint writes its bone's end there and hands that point to
/// its left subtree, then to its right one. The pass stops at the first node
/// without a joint that has children: what it wrote up to there stays, and
/// nothing after that node is written.
pub open spec fn written(t: Rig, bones: Seq<Bone>, head: Vector3, joints: Seq<Joint>) -> Seq<Joint>
    decreases t,
{
    match t.value.1 {
        Some(j) => {
            let end = bone_end(head, bones[t.value.0.slot()]);
            let here = joints.update(j.slot(), Joint { position: end });
            let after_left = match t.left {
                Some(l) => written(*l, bones, end, here),
                None => here,
            };
            if child_well_formed(t.left) {
                match t.right {
                    Some(r) => written(*r, bones, end, after_left),
                    None => after_left,
                }
            } else {
                after_left
            }
        },
        None => joints,
    }
}

/// The last joint value that a pass over `t` from `head` writes to `slot`,
/// if it writes there at all; the right subtree is visited after the left
/// one, both after their node, and not at all after a failure on the left.
pub open spec fn last_write(t: Rig, bones: Seq<Bone>, head: Vector3, slot: int) -> Option<Joint>
    decreases t,
{
    match t.value.1 {
        Some(j) => {
            let end = bone_end(head, bones[t.value.0.slot()]);
            let from_left = match t.left {
                Some(l) => last_write(*l, bones, end, slot),
                None => None,
            };
            let from_right = match t.right {
                Some(r) => if child_well_formed(t.left) {
                    last_write(*r, bones, end, slot)
                } else {
                    None
                },
                None => None,
            };
            if from_right is Some {
                from_right
            } else if from_left is Some {
                from_left
            } else if j.slot() == slot {
                Some(Joint { position: end })
            } else {
                None
            }
        },
        None => None,
    }
}

/// A pass, whether it fails or not, leaves in each slot the last value written
/// there, or the value the slot held before where nothing is written to it.
pub proof fn lemma_written_slots(t: Rig, bones: Seq<Bone>, head: Vector3, joints: Seq<Joint>)
    requires
        joints.len() == JOINT_COUNT,
    ensures
        written(t, bones, head, joints).len() == JOINT_COUNT,
        forall|i: int| 0 <= i < JOINT_COUNT ==> #[trigger] written(t, bones, head, joints)[i] == match last_write(t, bones, head, i) {
            Some(w) => w,
            None => joints[i],
        },
    decreases t,
{
    if let Some(j) = t.value.1 {
        let end = bone_end(head, bones[t.value.0.slot()]);
        let here = joints.update(j.slot(), Joint { position: end });
        if let Some(l) = t.left {
            lemma_written_slots(*l, bones, end, here);
        }
        let after_left = match t.left {
            Some(l) => written(*l, bones, end, here),
            None => here,
        };
        if let Some(r) = t.right {
            if child_well_formed(t.left) {
                lemma_written_slots(*r, bones, end, after_left);
            }
        }
    }
}

/// A second pass with the same bones from the same head writes what the
/// first one wrote, and so changes nothing.
pub proof fn lemma_pass_twice(t: Rig, bones: Seq<Bone>, head: Vector3, joints: Seq<Joint>)
    requires
        joints.len() == JOINT_COUNT,
    ensures
        written(t, bones, head, written(t, bones, head, joints)) == written(t, bones, head, joints),
{
    let once = written(t, bones, head, joints);
    lemma_written_slots(t, bones, head, joints);
    lemma_written_slots(t, bones, head, once);
    assert(written(t, bones, head, once) =~= once);
}

/// Some node of `t` that a pass visits holds a joint at `slot`.
pub open spec fn writes_to(t: Rig, slot: int) -> bool
    decreases t,
{
    match t.value.1 {
        Some(j) => {
            ||| j.slot() == slot
            ||| match t.left {
                Some(l) => writes_to(*l, slot),
                None => false,
            }
            ||| match t.right {
                Some(r) => writes_to(*r, slot),
                None => false,
            }
        },
        None => false,
    }
}

/// A slot that no node holds is never written.
pub proof fn lemma_unwritten_slot(t: Rig, bones: Seq<Bone>, head: Vector3, slot: int)
    requires
        !writes_to(t, slot),
    ensures
        last_write(t, bones, head, slot) is None,
    decreases t,
{
    if let Some(j) = t.value.1 {
        let end = bone_end(head, bones[t.value.0.slot()]);
        if let Some(l) = t.left {
            lemma_unwritten_slot(*l, bones, end, slot);
        }
        if let Some(r) = t.right {
            lemma_unwritten_slot(*r, bones, end, slot);
        }
    }
}

/// A slot that no node holds keeps its value through a pass, whether the
/// pass fails or not.
pub proof fn lemma_unwritten_kept(t: Rig, bones: Seq<Bone>, head: Vector3, joints: Seq<Joint>, slot: int)
    requires
        joints.len() == JOINT_COUNT,
        0 <= slot < JOINT_COUNT,
        !writes_to(t, slot),
    ensures
        written(t, bones, head, joints)[slot] == joints[slot],
{
    lemma_unwritten_slot(t, bones, head, slot);
    lemma_written_slots(t, bones, head, joints);
}

/// In a well-formed rig, a slot that some node holds is written.
pub proof fn lemma_written_slot(t: Rig, bones: Seq<Bone>, head: Vector3, slot: int)
    requires
        well_formed(t),
        writes_to(t, slot),
    ensures
        last_write(t, bones, head, slot) is Some,
    decreases t,
{
    if let Some(j) = t.value.1 {
        let end = bone_end(head, bones[t.value.0.slot()]);
        if let Some(l) = t.left {
            if writes_to(*l, slot) {
                lemma_written_slot(*l, bones, end, slot);
            }
        }
        if let Some(r) = t.right {
            if writes_to(*r, slot) {
                lemma_written_slot(*r, bones, end, slot);
            }
        }
    }
}

/// The humanoid rig is well formed and never writes the head joint.
pub proof fn lemma_humanoid_rig()
    ensures
        well_formed(humanoid_rig()),
        !writes_to(humanoid_rig(), JointId::Head.slot()),
{
    reveal_with_fuel(well_formed, 6);
    reveal_with_fuel(writes_to, 6);
}

/// Writes the position of every joint of `tree` into `joints`, each node's
/// bone starting at `head`; fails at the first node without a joint that has
/// children, keeping what was written before it. Joints no node holds are
/// left untouched.
fn evaluate_inner(tree: &Rig, bones: &Bones, head: Vector3, joints: &mut Joints) -> (r: Result<(), SkeletonError>)
    ensures
        canonical_joints(final(joints)@) == written(*tree, bones@, head, canonical_joints(old(joints)@)),
        forall|i: int| 0 <= i < JOINT_COUNT && !writes_to(*tree, i) ==> #[trigger] final(joints)@[i] == old(joints)@[i],
        r is Ok <==> well_formed(*tree),
    decreases tree,
{
    proof {
        joints.lemma_len();
    }
    match tree.value.1 {
        Some(joint) => {
            let start = Joint::new(head);
            let mut base = start;
            calc_bone_base_from_bone_and_head(&start, bones.get(tree.value.0), &mut base);
            let end = base.position;
            let ghost before = joints@;
            joints.set(joint, base);
            proof {
                let spec_end = bone_end(head, bones@[tree.value.0.slot()]);
                assert(canonical_joints(joints@) =~= canonical_joints(before).update(
                    joint.slot(),
                    Joint { position: spec_end },
                ));
                end.lemma_canonical_idempotent();
                let here = canonical_joints(joints@);
                if tree.left is Some {
                    lemma_written_head(*tree.left.unwrap(), bones@, end, spec_end, here);
                }
                if tree.right is Some {
                    let after_left = if tree.left is Some {
                        written(*tree.left.unwrap(), bones@, spec_end, here)
                    } else {
                        here
                    };
                    lemma_written_head(*tree.right.unwrap(), bones@, end, spec_end, after_left);
                }
            }
            if let Some(l) = tree.left() {
                let r = evaluate_inner(l, bones, end, joints);
                if r.is_err() {
                    return r;
                }
            }
            if let Some(rt) = tree.right() {
                let r = evaluate_inner(rt, bones, end, joints);
                if r.is_err() {
                    return r;
                }
            }
            Ok(())
        },
        None => {
            if tree.left().is_some() || tree.right().is_some() {
                Err(SkeletonError::InvalidStructure)
            } else {
                Ok(())
            }
        },
    }
}

/// A rig node with the given value and subtrees.
pub open spec fn rig_node(value: (BoneId, Option<JointId>), left: Option<Rig>, right: Option<Rig>) -> Rig {
    BinaryTree {
        value,
        left: match left {
            Some(l) => Some(Box::new(l)),
            None => None,
        },
        right: match right {
            Some(r) => Some(Box::new(r)),
            None => None,
        },
    }
}

/// The humanoid lower body: the spine from the head to the hips; from the
/// hips a hip offset to each hip joint; then upper leg to the knee, lower leg
/// to the ankle, and a foot without a tracked end. Left limbs hang on left
/// children, right limbs on right children.
pub open spec fn humanoid_rig() -> Rig {
    let left_foot = rig_node((BoneId::LeftFoot, None), None, None);
    let right_foot = rig_node((BoneId::RightFoot, None), None, None);
    let left_lower = rig_node((BoneId::LeftLowerLeg, Some(JointId::LeftAnkle)), Some(left_foot), None);
    let right_lower = rig_node((BoneId::RightLowerLeg, Some(JointId::RightAnkle)), None, Some(right_foot));
    let left_upper = rig_node((BoneId::LeftUpperLeg, Some(JointId::LeftKnee)), Some(left_lower), None);
    let right_upper = rig_node((BoneId::RightUpperLeg, Some(JointId::RightKnee)), None, Some(right_lower));
    let left_hip = rig_node((BoneId::LeftHipOffset, Some(JointId::LeftHipJoint)), Some(left_upper), None);
    let right_hip = rig_node((BoneId::RightHipOffset, Some(JointId::RightHipJoint)), None, Some(right_upper));
    rig_node((BoneId::Spine, Some(JointId::Hips)), Some(left_hip), Some(right_hip))
}

/// A rig with its bone and joint tables and the joint its root bone starts at.
#[derive(Debug)]
pub struct Skeleton {
    tree: Rig,
    bones: Bones,
    joints: Joints,
    head_joint: JointId,
}

impl Skeleton {
    /// The hierarchy.
    pub closed spec fn rig(&self) -> Rig {
        self.tree
    }

    /// The bones, by slot.
    pub closed spec fn bone_table(&self) -> Seq<Bone> {
        self.bones@
    }

    /// The joints, by slot.
    pub closed spec fn joint_table(&self) -> Seq<Joint> {
        self.joints@
    }

    /// The joint the root bone starts at.
    pub closed spec fn head(&self) -> JointId {
        self.head_joint
    }

    /// Where the root bone starts: the position of the head joint.
    pub open spec fn head_position(&self) -> Vector3 {
        self.joint_table()[self.head().slot()].position
    }

    pub proof fn lemma_table_sizes(&self)
        ensures
            self.bone_table().len() == BONE_COUNT,
            self.joint_table().len() == JOINT_COUNT,
    {
    }

    pub fn new(tree: Rig, bones: Bones, joints: Joints, head_joint: JointId) -> (r: Self)
        ensures
            r.rig() == tree,
            r.bone_table() == bones@,
            r.joint_table() == joints@,
            r.head() == head_joint,
    {
        Skeleton { tree, bones, joints, head_joint }
    }

    pub fn head_joint(&self) -> (r: JointId)
        ensures
            r == self.head(),
    {
        self.head_joint
    }

    pub fn tree(&self) -> (r: &Rig)
        ensures
            *r == self.rig(),
    {
        &self.tree
    }

    pub fn bone(&self, id: BoneId) -> (r: &Bone)
        ensures
            *r == self.bone_table()[id.slot()],
    {
        self.bones.get(id)
    }

    pub fn joint(&self, id: JointId) -> (r: &Joint)
        ensures
            *r == self.joint_table()[id.slot()],
    {
        self.joints.get(id)
    }

    pub fn bone_mut(&mut self, id: BoneId) -> (r: &mut Bone)
        ensures
            *r == old(self).bone_table()[id.slot()],
            final(self).bone_table() == old(self).bone_table().update(id.slot(), *final(r)),
            final(self).joint_table() == old(self).joint_table(),
            final(self).rig() == old(self).rig(),
            final(self).head() == old(self).head(),
    {
        self.bones.get_mut(id)
    }

    pub fn joint_mut(&mut self, id: JointId) -> (r: &mut Joint)
        ensures
            *r == old(self).joint_table()[id.slot()],
            final(self).joint_table() == old(self).joint_table().update(id.slot(), *final(r)),
            final(self).bone_table() == old(self).bone_table(),
            final(self).rig() == old(self).rig(),
            final(self).head() == old(self).head(),
    {
        self.joints.get_mut(id)
    }

    pub fn set_bone(&mut self, id: BoneId, bone: Bone)
        ensures
            final(self).bone_table() == old(self).bone_table().update(id.slot(), bone),
            final(self).joint_table() == old(self).joint_table(),
            final(self).rig() == old(self).rig(),
            final(self).head() == old(self).head(),
    {
        self.bones.set(id, bone);
    }

    pub fn set_joint(&mut self, id: JointId, joint: Joint)
        ensures
            final(self).joint_table() == old(self).joint_table().update(id.slot(), joint),
            final(self).bone_table() == old(self).bone_table(),
            final(self).rig() == old(self).rig(),
            final(self).head() == old(self).head(),
    {
        self.joints.set(id, joint);
    }

    /// Recomputes every joint of the rig from the bones, starting at the head
    /// joint. Fails where a node without a joint has children; the joints
    /// written before that node stay written, the others keep their values.
    /// Positions are fixed up to the sign and payload of NaN components; a
    /// joint that no node holds keeps its exact bits.
    pub fn evaluate(&mut self) -> (r: Result<(), SkeletonError>)
        ensures
            final(self).rig() == old(self).rig(),
            final(self).bone_table() == old(self).bone_table(),
            final(self).head() == old(self).head(),
            r is Ok <==> well_formed(old(self).rig()),
            canonical_joints(final(self).joint_table()) == written(
                old(self).rig(),
                old(self).bone_table(),
                old(self).head_position(),
                canonical_joints(old(self).joint_table()),
            ),
            forall|i: int|
                0 <= i < JOINT_COUNT && !writes_to(old(self).rig(), i) ==> #[trigger] final(self).joint_table()[i]
                    == old(self).joint_table()[i],
    {
        let head = self.joints.get(self.head_joint).position;
        evaluate_inner(&self.tree, &self.bones, head, &mut self.joints)
    }
}

impl Default for Skeleton {
    /// The humanoid rig with every bone of length zero and no rotation, every
    /// joint at the origin, and the head joint as the root's start.
    fn default() -> (r: Skeleton)
        ensures
            r.rig() == humanoid_rig(),
            r.head() == JointId::Head,
            forall|i: int| 0 <= i < BONE_COUNT ==> #[trigger] r.bone_table()[i] == (Bone { length: 0, rotation: Quaternion::unit() }),
            forall|i: int| 0 <= i < JOINT_COUNT ==> #[trigger] r.joint_table()[i] == (Joint { position: Vector3::zero() }),
    {
        let bones = Bones::default();
        let joints = Joints::default();
        let left_foot = BinaryTree::new((BoneId::LeftFoot, None), None, None);
        let right_foot = BinaryTree::new((BoneId::RightFoot, None), None, None);
        let left_lower = BinaryTree::new((BoneId::LeftLowerLeg, Some(JointId::LeftAnkle)), Some(left_foot), None);
        let right_lower = BinaryTree::new((BoneId::RightLowerLeg, Some(JointId::RightAnkle)), None, Some(right_foot));
        let left_upper = BinaryTree::new((BoneId::LeftUpperLeg, Some(JointId::LeftKnee)), Some(left_lower), None);
        let right_upper = BinaryTree::new((BoneId::RightUpperLeg, Some(JointId::RightKnee)), None, Some(right_lower));
        let left_hip = BinaryTree::new((BoneId::LeftHipOffset, Some(JointId::LeftHipJoint)), Some(left_upper), None);
        let right_hip = BinaryTree::new((BoneId::RightHipOffset, Some(JointId::RightHipJoint)), None, Some(right_upper));
        let tree = BinaryTree::new((BoneId::Spine, Some(JointId::Hips)), Some(left_hip), Some(right_hip));
        Skeleton::new(tree, bones, joints, JointId::Head)
    }
}

/// The joint a node of the rig refers to, looked up through the node.
pub open spec fn node_joint(s: Skeleton, node: (BoneId, Option<JointId>)) -> Option<Joint> {
    match node.1 {
        Some(j) => Some(s.joint_table()[j.slot()]),
        None => None,
    }
}

/// The bone a node of the rig refers to, looked up through the node.
pub open spec fn node_bone(s: Skeleton, node: (BoneId, Option<JointId>)) -> Bone {
    s.bone_table()[node.0.slot()]
}

/// A bone set through the named table is the bone every node naming it sees,
/// and the bones of other nodes stay as they were.
pub proof fn lemma_bone_shared(before: Skeleton, after: Skeleton, id: BoneId, bone: Bone, node: (BoneId, Option<JointId>))
    requires
        after.bone_table() == before.bone_table().update(id.slot(), bone),
    ensures
        node.0 == id ==> node_bone(after, node) == bone,
        node.0 != id ==> node_bone(after, node) == node_bone(before, node),
{
    before.lemma_table_sizes();
}

/// A joint set through the named table is the joint every node naming it
/// sees, and the joints of other nodes stay as they were.
pub proof fn lemma_joint_shared(before: Skeleton, after: Skeleton, id: JointId, joint: Joint, node: (BoneId, Option<JointId>))
    requires
        after.joint_table() == before.joint_table().update(id.slot(), joint),
    ensures
        node.1 == Some(id) ==> node_joint(after, node) == Some(joint),
        node.1 is Some && node.1 != Some(id) ==> node_joint(after, node) == node_joint(before, node),
{
    before.lemma_table_sizes();
}

/// After a successful evaluation the named table holds, for every joint of
/// the rig and up to NaN payloads, the position that the pass over the rig
/// wrote last for it.
pub proof fn lemma_evaluated_seen_by_name(before: Skeleton, after: Skeleton, id: JointId)
    requires
        well_formed(before.rig()),
        canonical_joints(after.joint_table()) == written(
            before.rig(),
            before.bone_table(),
            before.head_position(),
            canonical_joints(before.joint_table()),
        ),
        writes_to(before.rig(), id.slot()),
    ensures
        last_write(before.rig(), before.bone_table(), before.head_position(), id.slot()) == Some(
            canonical_joints(after.joint_table())[id.slot()],
        ),
{
    before.lemma_table_sizes();
    let js = canonical_joints(before.joint_table());
    lemma_written_slots(before.rig(), before.bone_table(), before.head_position(), js);
    lemma_written_slot(before.rig(), before.bone_table(), before.head_position(), id.slot());
}

/// Evaluation is deterministic: evaluating a skeleton a second time, with
/// nothing changed since the first evaluation, leaves every joint as the first
/// one left it, up to NaN payloads, whether the rig is well formed or not
/// (both calls then fail alike). This needs the rig not to write the head
/// joint it starts from.
pub proof fn lemma_evaluate_twice(before: Skeleton, once: Skeleton)
    requires
        !writes_to(before.rig(), before.head().slot()),
        once.rig() == before.rig(),
        once.bone_table() == before.bone_table(),
        once.head() == before.head(),
        canonical_joints(once.joint_table()) == written(
            before.rig(),
            before.bone_table(),
            before.head_position(),
            canonical_joints(before.joint_table()),
        ),
    ensures
        once.head_position().canonical() == before.head_position().canonical(),
        written(once.rig(), once.bone_table(), once.head_position(), canonical_joints(once.joint_table()))
            == canonical_joints(once.joint_table()),
{
    let t = before.rig();
    let b = before.bone_table();
    let h = before.head_position();
    let js = canonical_joints(before.joint_table());
    before.lemma_table_sizes();
    lemma_unwritten_kept(t, b, h, js, before.head().slot());
    assert(canonical_joints(once.joint_table())[before.head().slot()] == js[before.head().slot()]);
    lemma_written_head(t, b, once.head_position(), h, canonical_joints(once.joint_table()));
    lemma_pass_twice(t, b, h, js);
}

} // verus!
