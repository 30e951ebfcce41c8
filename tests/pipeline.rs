use epsilon_rig::server::{
    track, Command, Event, Fault, Server, Stage, TrackerPose, FOOT_LENGTH, HIP_OFFSET_LENGTH,
    LOWER_LEG_LENGTH, SENSOR_COUNT, SPINE_LENGTH, UPPER_LEG_LENGTH,
};
use epsilon_rig::skeleton::{BoneId, Bones, JointId, Joints, Skeleton, SkeletonError};
use epsilon_rig::tree::BinaryTree;
use epsilon_rig::Quaternion;

fn quat(q: glam::Quat) -> Quaternion {
    Quaternion { x: q.x.to_bits(), y: q.y.to_bits(), z: q.z.to_bits(), w: q.w.to_bits() }
}

fn frame(angle: f32) -> [Quaternion; SENSOR_COUNT] {
    let mut f = [Quaternion::identity(); SENSOR_COUNT];
    for (k, q) in f.iter_mut().enumerate() {
        *q = quat(glam::Quat::from_rotation_x(angle * k as f32));
    }
    f
}

fn streaming(failover: bool, candidates: usize) -> Server {
    let mut s = Server::new(failover, candidates);
    let (c, f) = s.step(Event::Accepted);
    assert!(matches!(c, Command::Receive));
    assert_eq!(f, None);
    s
}

fn sent(c: Command) -> [TrackerPose; 3] {
    match c {
        Command::Send(p) => p,
        other => panic!("expected a send, got {:?}", other),
    }
}

#[test]
fn new_server_has_rig_proportions() {
    let s = Server::new(false, 1);
    let k = s.skeleton();
    assert_eq!(k.bone(BoneId::Spine).get_length(), SPINE_LENGTH);
    assert_eq!(SPINE_LENGTH, 0.77f32.to_bits());
    assert_eq!(HIP_OFFSET_LENGTH, 0.15f32.to_bits());
    assert_eq!(UPPER_LEG_LENGTH, 0.48f32.to_bits());
    assert_eq!(LOWER_LEG_LENGTH, 0.42f32.to_bits());
    assert_eq!(FOOT_LENGTH, 0.20f32.to_bits());
    assert_eq!(k.bone(BoneId::RightFoot).get_length(), FOOT_LENGTH);
    assert_eq!(k.head_joint(), JointId::Head);
    assert_eq!(s.pipeline().stage, Stage::Accepting);
    assert!(s.pipeline().upstream_live);
}

#[test]
fn hip_offsets_are_turned_about_z() {
    let s = Server::new(false, 1);
    let left = s.skeleton().bone(BoneId::LeftHipOffset).get_rotation();
    let right = s.skeleton().bone(BoneId::RightHipOffset).get_rotation();
    assert_eq!(left, quat(glam::Quat::from_rotation_z(90.0f32.to_radians())));
    assert_eq!(right, quat(glam::Quat::from_rotation_z(-90.0f32.to_radians())));
    assert_eq!((left.x, left.y, right.x, right.y), (0, 0, 0, 0));
    assert!((f32::from_bits(left.z) - std::f32::consts::FRAC_1_SQRT_2).abs() < 1e-6);
    assert!((f32::from_bits(right.z) + std::f32::consts::FRAC_1_SQRT_2).abs() < 1e-6);
}

#[test]
fn frame_gives_hips_and_ankles() {
    let mut s = streaming(false, 1);
    let f = [Quaternion::identity(); SENSOR_COUNT];
    let (c, fault) = s.step(Event::Received(f));
    assert_eq!(fault, None);
    assert_eq!(s.pipeline().stage, Stage::Sending);
    let poses = sent(c);
    let z: Vec<f32> = poses.iter().map(|p| f32::from_bits(p.position.z)).collect();
    assert!((z[0] + 0.77).abs() < 1e-6);
    assert!((z[1] + (0.77 + 0.15 + 0.48 + 0.42)).abs() < 1e-5);
    assert!((z[2] + (0.77 + 0.15 + 0.48 + 0.42)).abs() < 1e-5);
    let (c, fault) = s.step(Event::Sent);
    assert!(matches!(c, Command::Receive));
    assert_eq!(fault, None);
}

#[test]
fn tracker_rotations_pass_through() {
    let mut s = streaming(false, 1);
    let f = frame(0.1);
    let poses = sent(s.step(Event::Received(f)).0);
    assert_eq!(poses[0].rotation, f[0]);
    assert_eq!(poses[1].rotation, f[3]);
    assert_eq!(poses[2].rotation, f[6]);
    assert_eq!(s.skeleton().bone(BoneId::LeftFoot).get_rotation(), f[3]);
    assert_eq!(s.skeleton().bone(BoneId::RightLowerLeg).get_rotation(), f[5]);
    assert_eq!(s.skeleton().bone(BoneId::LeftHipOffset).get_length(), HIP_OFFSET_LENGTH);
}

#[test]
fn receive_failure_reconnects_upstream_only() {
    let mut s = streaming(true, 3);
    let (c, fault) = s.step(Event::ReceiveFailed);
    assert!(matches!(c, Command::Connect(1)));
    assert_eq!(fault, Some(Fault::Receive));
    assert_eq!(s.pipeline().stage, Stage::Connecting);
    let (c, fault) = s.step(Event::ConnectFailed);
    assert!(matches!(c, Command::Connect(2)));
    assert_eq!(fault, Some(Fault::Connect));
    let (c, _) = s.step(Event::ConnectFailed);
    assert!(matches!(c, Command::Connect(0)));
    let (c, fault) = s.step(Event::Connected);
    assert!(matches!(c, Command::Receive));
    assert_eq!(fault, None);
    assert_eq!(s.pipeline().stage, Stage::Receiving);
}

#[test]
fn receive_failure_without_failover_keeps_connection() {
    let mut s = streaming(false, 2);
    let (c, fault) = s.step(Event::ReceiveFailed);
    assert!(matches!(c, Command::Receive));
    assert_eq!(fault, Some(Fault::Receive));
    assert_eq!(s.pipeline().candidate, 0);
}

#[test]
fn send_failure_restarts_from_accept() {
    let mut s = streaming(true, 2);
    s.step(Event::Received(frame(0.2)));
    let (c, fault) = s.step(Event::SendFailed);
    assert!(matches!(c, Command::Accept));
    assert_eq!(fault, Some(Fault::Send));
    assert_eq!(s.pipeline().stage, Stage::Accepting);
    assert!(!s.pipeline().upstream_live);
    let (c, fault) = s.step(Event::Accepted);
    assert!(matches!(c, Command::Connect(1)));
    assert_eq!(fault, None);
}

#[test]
fn accept_failure_retries_accept() {
    let mut s = Server::new(false, 1);
    let (c, fault) = s.step(Event::AcceptFailed);
    assert!(matches!(c, Command::Accept));
    assert_eq!(fault, Some(Fault::Accept));
    assert_eq!(s.pipeline().stage, Stage::Accepting);
}

#[test]
fn identical_frames_give_identical_outputs() {
    let mut s = streaming(false, 1);
    let f = frame(0.3);
    let mut outputs = Vec::new();
    for _ in 0..4 {
        outputs.push(sent(s.step(Event::Received(f)).0));
        s.step(Event::Sent);
    }
    assert!(outputs.iter().all(|o| *o == outputs[0]));
}

#[test]
fn track_on_malformed_rig_fails() {
    let bad = BinaryTree::new(
        (BoneId::Spine, None),
        None,
        Some(BinaryTree::new((BoneId::RightFoot, None), None, None)),
    );
    let mut k = Skeleton::new(bad, Bones::default(), Joints::default(), JointId::Head);
    let f = frame(0.1);
    assert_eq!(track(&mut k, &f), Err(SkeletonError::InvalidStructure));
    assert_eq!(k.bone(BoneId::Spine).get_rotation(), f[0]);
}
