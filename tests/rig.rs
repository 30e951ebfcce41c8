use epsilon_rig::geometry::ONE_BITS;
use epsilon_rig::maths::calc_bone_base_from_bone_and_head;
use epsilon_rig::skeleton::{
    Bone, BoneId, Bones, Joint, JointId, Joints, Skeleton, SkeletonError, BONE_COUNT, JOINT_COUNT,
};
use epsilon_rig::tree::BinaryTree;
use epsilon_rig::{Quaternion, Vector3};

const ALL_JOINTS: [JointId; JOINT_COUNT] = [
    JointId::Head,
    JointId::Hips,
    JointId::LeftHipJoint,
    JointId::LeftKnee,
    JointId::LeftAnkle,
    JointId::RightHipJoint,
    JointId::RightKnee,
    JointId::RightAnkle,
];

fn bits(x: f32, y: f32, z: f32) -> Vector3 {
    Vector3 { x: x.to_bits(), y: y.to_bits(), z: z.to_bits() }
}

fn quat(q: glam::Quat) -> Quaternion {
    Quaternion { x: q.x.to_bits(), y: q.y.to_bits(), z: q.z.to_bits(), w: q.w.to_bits() }
}

fn floats(v: Vector3) -> [f32; 3] {
    [f32::from_bits(v.x), f32::from_bits(v.y), f32::from_bits(v.z)]
}

fn close(a: [f32; 3], b: [f32; 3]) -> bool {
    a.iter().zip(b.iter()).all(|(x, y)| (x - y).abs() < 1e-6)
}

fn single_bone(length: f32, rotation: Quaternion) -> Skeleton {
    let mut bones = Bones::default();
    bones.set(BoneId::Spine, Bone::new(length.to_bits(), rotation));
    let tree = BinaryTree::new((BoneId::Spine, Some(JointId::Hips)), None, None);
    Skeleton::new(tree, bones, Joints::default(), JointId::Head)
}

#[test]
fn two_bone_chain_ends_below_head() {
    let mut s = single_bone(2.0, Quaternion::identity());
    assert!(s.evaluate().is_ok());
    assert_eq!(floats(s.joint(JointId::Hips).get_position()), [0.0, 0.0, -2.0]);
    assert_eq!(floats(s.joint(JointId::Head).get_position()), [0.0, 0.0, 0.0]);
}

#[test]
fn quarter_turn_about_z_keeps_rest_direction() {
    // glam's rotations are active and right-handed; a turn about z leaves the
    // rest direction (0, 0, -1) where it is.
    let rotation = quat(glam::Quat::from_rotation_z(90.0f32.to_radians()));
    let mut s = single_bone(0.15, rotation);
    assert!(s.evaluate().is_ok());
    assert!(close(floats(s.joint(JointId::Hips).get_position()), [0.0, 0.0, -0.15]));
}

#[test]
fn quarter_turn_about_y_swings_bone_sideways() {
    let rotation = quat(glam::Quat::from_rotation_y(-90.0f32.to_radians()));
    let mut s = single_bone(0.15, rotation);
    assert!(s.evaluate().is_ok());
    assert!(close(floats(s.joint(JointId::Hips).get_position()), [0.15, 0.0, 0.0]));
}

#[test]
fn bone_end_adds_head_and_scaled_direction() {
    let head = Joint::new(bits(1.0, 2.0, 3.0));
    let bone = Bone::new(0.5f32.to_bits(), Quaternion::identity());
    let mut base = Joint::default();
    calc_bone_base_from_bone_and_head(&head, &bone, &mut base);
    assert_eq!(floats(base.get_position()), [1.0, 2.0, 2.5]);
}

#[test]
fn default_rig_evaluates_along_the_axis() {
    let mut s = Skeleton::default();
    s.set_bone(BoneId::Spine, Bone::new(1.0f32.to_bits(), Quaternion::identity()));
    s.set_bone(BoneId::LeftUpperLeg, Bone::new(0.5f32.to_bits(), Quaternion::identity()));
    s.set_joint(JointId::Head, Joint::new(bits(0.0, 0.0, 2.0)));
    assert!(s.evaluate().is_ok());
    assert_eq!(floats(s.joint(JointId::Hips).get_position()), [0.0, 0.0, 1.0]);
    assert_eq!(floats(s.joint(JointId::LeftHipJoint).get_position()), [0.0, 0.0, 1.0]);
    assert_eq!(floats(s.joint(JointId::LeftKnee).get_position()), [0.0, 0.0, 0.5]);
    assert_eq!(floats(s.joint(JointId::LeftAnkle).get_position()), [0.0, 0.0, 0.5]);
    assert_eq!(floats(s.joint(JointId::RightAnkle).get_position()), [0.0, 0.0, 1.0]);
}

#[test]
fn jointless_node_with_child_is_invalid() {
    let bad = BinaryTree::new(
        (BoneId::Spine, None),
        Some(BinaryTree::new((BoneId::LeftFoot, None), None, None)),
        None,
    );
    let mut s = Skeleton::new(bad, Bones::default(), Joints::default(), JointId::Head);
    assert_eq!(s.evaluate(), Err(SkeletonError::InvalidStructure));
}

#[test]
fn deep_invalid_node_fails_after_partial_writes() {
    let bad_leaf = BinaryTree::new(
        (BoneId::LeftFoot, None),
        None,
        Some(BinaryTree::new((BoneId::RightFoot, Some(JointId::RightAnkle)), None, None)),
    );
    let tree = BinaryTree::new((BoneId::Spine, Some(JointId::Hips)), Some(bad_leaf), None);
    let mut bones = Bones::default();
    bones.set(BoneId::Spine, Bone::new(1.0f32.to_bits(), Quaternion::identity()));
    let mut joints = Joints::default();
    joints.set(JointId::Head, Joint::new(bits(0.0, 0.0, 3.0)));
    joints.set(JointId::RightAnkle, Joint::new(bits(7.0, 7.0, 7.0)));
    let mut s = Skeleton::new(tree, bones, joints, JointId::Head);
    assert_eq!(s.evaluate(), Err(SkeletonError::InvalidStructure));
    assert_eq!(floats(s.joint(JointId::Hips).get_position()), [0.0, 0.0, 2.0]);
    assert_eq!(floats(s.joint(JointId::Head).get_position()), [0.0, 0.0, 3.0]);
    assert_eq!(floats(s.joint(JointId::RightAnkle).get_position()), [7.0, 7.0, 7.0]);
    assert_eq!(s.evaluate(), Err(SkeletonError::InvalidStructure));
    assert_eq!(floats(s.joint(JointId::Hips).get_position()), [0.0, 0.0, 2.0]);
}

#[test]
fn evaluating_twice_gives_identical_bits() {
    let mut s = Skeleton::default();
    s.set_bone(BoneId::Spine, Bone::new(0.77f32.to_bits(), quat(glam::Quat::from_rotation_x(0.3))));
    s.set_bone(BoneId::LeftUpperLeg, Bone::new(0.48f32.to_bits(), quat(glam::Quat::from_rotation_y(0.7))));
    assert!(s.evaluate().is_ok());
    let first: Vec<Joint> = ALL_JOINTS.iter().map(|id| *s.joint(*id)).collect();
    assert!(s.evaluate().is_ok());
    let second: Vec<Joint> = ALL_JOINTS.iter().map(|id| *s.joint(*id)).collect();
    assert_eq!(first, second);
}

#[test]
fn named_and_tree_lookups_agree() {
    let mut s = Skeleton::default();
    s.set_bone(BoneId::LeftLowerLeg, Bone::new(0.42f32.to_bits(), Quaternion::identity()));
    let (bone, joint) = s.tree().left().unwrap().left().unwrap().left().unwrap().value;
    assert_eq!(bone, BoneId::LeftLowerLeg);
    assert_eq!(s.bone(bone).get_length(), 0.42f32.to_bits());
    assert!(s.evaluate().is_ok());
    assert_eq!(s.joint(joint.unwrap()), s.joint(JointId::LeftAnkle));
    assert_eq!(floats(s.joint(JointId::LeftAnkle).get_position()), [0.0, 0.0, -0.42]);
}

#[test]
fn defaults_are_origin_and_identity() {
    let bones = Bones::default();
    let joints = Joints::default();
    assert_eq!(BONE_COUNT, 9);
    assert_eq!(JOINT_COUNT, 8);
    assert_eq!(bones.get(BoneId::RightFoot).get_length(), 0);
    assert_eq!(bones.get(BoneId::RightFoot).get_rotation().w, ONE_BITS);
    assert_eq!(joints.get(JointId::RightKnee).get_position(), Vector3::origin());
}

#[test]
fn bone_and_joint_accessors() {
    let mut b = Bone::default();
    b.set_length(3);
    b.set_rotation(Quaternion { x: 1, y: 2, z: 3, w: 4 });
    assert_eq!(b.get_length(), 3);
    assert_eq!(b.get_rotation(), Quaternion { x: 1, y: 2, z: 3, w: 4 });
    let mut j = Joint::default();
    j.set_position(bits(1.0, 0.0, 0.0));
    assert_eq!(floats(j.get_position()), [1.0, 0.0, 0.0]);
    let mut joints = Joints::default();
    joints.as_mut_slice()[JointId::Hips.index()] = j;
    assert_eq!(*joints.get(JointId::Hips), j);
}

#[test]
fn mutation_through_handle_is_seen_by_evaluation() {
    let mut s = Skeleton::default();
    s.bone_mut(BoneId::Spine).set_length(1.5f32.to_bits());
    s.joint_mut(JointId::Head).set_position(bits(0.0, 1.0, 0.0));
    let (spine, hips) = s.tree().value;
    assert_eq!(s.bone(spine).get_length(), 1.5f32.to_bits());
    assert!(s.evaluate().is_ok());
    assert_eq!(floats(s.joint(hips.unwrap()).get_position()), [0.0, 1.0, -1.5]);
    assert_eq!(floats(s.joint(JointId::Hips).get_position()), [0.0, 1.0, -1.5]);
}

#[test]
fn infinite_length_gives_nan_across_the_axis() {
    let mut s = single_bone(f32::INFINITY, Quaternion::identity());
    assert!(s.evaluate().is_ok());
    let [x, y, z] = floats(s.joint(JointId::Hips).get_position());
    assert!(x.is_nan());
    assert!(y.is_nan());
    assert_eq!(z, f32::NEG_INFINITY);
    assert_eq!(floats(s.joint(JointId::Head).get_position()), [0.0, 0.0, 0.0]);
}
