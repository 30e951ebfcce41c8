//! The streaming pipeline: how each upstream frame becomes tracker poses, and
//! the decisions of the accept / connect / stream loop. The loop itself, with
//! its connections, is driven by the caller: it performs each `Command` and
//! hands back what happened as an `Event`.
use vstd::prelude::*;

use vstd::arithmetic::div_mod::{lemma_fundamental_div_mod, lemma_mod_multiples_vanish, lemma_mod_self_0, lemma_small_mod};

use crate::geometry::{rotation_about_z, Quaternion, Vector3, ZERO_BITS};
use crate::skeleton::{
    canonical_joints, humanoid_rig, lemma_pass_twice, lemma_unwritten_kept, well_formed, writes_to, written, Bone,
    BoneId, JointId, Joint, Rig, Skeleton, SkeletonError, BONE_COUNT, JOINT_COUNT,
};

verus! {

/// Orientation samples in one upstream frame.
pub const SENSOR_COUNT: usize = 7;

/// Poses in one downstream frame.
pub const TRACKER_COUNT: usize = 3;

/// The bone that the sample at position `k` of a frame rotates.
pub open spec fn sensor_bone(k: int) -> BoneId {
    if k == 0 {
        BoneId::Spine
    } else if k == 1 {
        BoneId::LeftUpperLeg
    } else if k == 2 {
        BoneId::LeftLowerLeg
    } else if k == 3 {
        BoneId::LeftFoot
    } else if k == 4 {
        BoneId::RightUpperLeg
    } else if k == 5 {
        BoneId::RightLowerLeg
    } else {
        BoneId::RightFoot
    }
}

/// The position in a frame of the sample for the bone at `slot`, if a sensor
/// tracks that bone; the hip offsets have none.
pub open spec fn sensor_of_slot(slot: int) -> Option<int> {
    if slot == 0 {
        Some(0)
    } else if slot == 2 {
        Some(1)
    } else if slot == 3 {
        Some(2)
    } else if slot == 4 {
        Some(3)
    } else if slot == 6 {
        Some(4)
    } else if slot == 7 {
        Some(5)
    } else if slot == 8 {
        Some(6)
    } else {
        None
    }
}

fn sensor_bone_at(k: usize) -> (r: BoneId)
    requires
        k < SENSOR_COUNT,
    ensures
        r == sensor_bone(k as int),
{
    if k == 0 {
        BoneId::Spine
    } else if k == 1 {
        BoneId::LeftUpperLeg
    } else if k == 2 {
        BoneId::LeftLowerLeg
    } else if k == 3 {
        BoneId::LeftFoot
    } else if k == 4 {
        BoneId::RightUpperLeg
    } else if k == 5 {
        BoneId::RightLowerLeg
    } else {
        BoneId::RightFoot
    }
}

/// The bones with each tracked bone's rotation taken from its sample in the
/// frame; lengths, and the bones no sensor tracks, unchanged.
pub open spec fn posed(bones: Seq<Bone>, frame: Seq<Quaternion>) -> Seq<Bone> {
    Seq::new(
        bones.len(),
        |i: int|
            match sensor_of_slot(i) {
                Some(k) => Bone { length: bones[i].length, rotation: frame[k] },
                None => bones[i],
            },
    )
}

/// One output record: a position from the rig and a rotation passed through
/// from the frame.
#[derive(Clone, Copy, Debug, PartialEq, Eq, Structural)]
pub struct TrackerPose {
    pub position: Vector3,
    pub rotation: Quaternion,
}

/// The output records: the hips with the spine's sample, then the left and
/// the right ankle with the left and the right foot's samples.
pub open spec fn tracker_poses(joints: Seq<Joint>, frame: Seq<Quaternion>) -> Seq<TrackerPose> {
    seq![
        TrackerPose { position: joints[JointId::Hips.slot()].position, rotation: frame[0] },
        TrackerPose { position: joints[JointId::LeftAnkle.slot()].position, rotation: frame[3] },
        TrackerPose { position: joints[JointId::RightAnkle.slot()].position, rotation: frame[6] },
    ]
}

/// Writes a frame's samples into the tracked bones, evaluates the rig and
/// reads the output records.
pub fn track(skeleton: &mut Skeleton, frame: &[Quaternion; SENSOR_COUNT]) -> (r: Result<[TrackerPose; TRACKER_COUNT], SkeletonError>)
    ensures
        final(skeleton).rig() == old(skeleton).rig(),
        final(skeleton).head() == old(skeleton).head(),
        final(skeleton).bone_table() == posed(old(skeleton).bone_table(), frame@),
        r is Ok <==> well_formed(old(skeleton).rig()),
        canonical_joints(final(skeleton).joint_table()) == written(
            old(skeleton).rig(),
            posed(old(skeleton).bone_table(), frame@),
            old(skeleton).head_position(),
            canonical_joints(old(skeleton).joint_table()),
        ),
        r is Ok ==> r.unwrap()@ == tracker_poses(final(skeleton).joint_table(), frame@),
{
    proof {
        old(skeleton).lemma_table_sizes();
    }
    let mut k: usize = 0;
    while k < SENSOR_COUNT
        invariant
            k <= SENSOR_COUNT,
            skeleton.rig() == old(skeleton).rig(),
            skeleton.head() == old(skeleton).head(),
            skeleton.joint_table() == old(skeleton).joint_table(),
            skeleton.bone_table().len() == BONE_COUNT,
            forall|i: int|
                0 <= i < BONE_COUNT ==> #[trigger] skeleton.bone_table()[i] == match sensor_of_slot(i) {
                    Some(n) => if n < k {
                        Bone { length: old(skeleton).bone_table()[i].length, rotation: frame@[n] }
                    } else {
                        old(skeleton).bone_table()[i]
                    },
                    None => old(skeleton).bone_table()[i],
                },
        decreases SENSOR_COUNT - k,
    {
        let id = sensor_bone_at(k);
        let length = skeleton.bone(id).length;
        skeleton.set_bone(id, Bone::new(length, frame[k]));
        k = k + 1;
    }
    assert(skeleton.bone_table() =~= posed(old(skeleton).bone_table(), frame@));
    skeleton.evaluate()?;
    Ok([
        TrackerPose { position: skeleton.joint(JointId::Hips).position, rotation: frame[0] },
        TrackerPose { position: skeleton.joint(JointId::LeftAnkle).position, rotation: frame[3] },
        TrackerPose { position: skeleton.joint(JointId::RightAnkle).position, rotation: frame[6] },
    ])
}

/// The bones and joints of a rig, starting from `bones` and `joints`, after
/// the same frame has been fed to it `n` times as `track` feeds it; joint
/// positions are read through `canon`.
pub open spec fn fed(
    rig: Rig,
    head: JointId,
    bones: Seq<Bone>,
    joints: Seq<Joint>,
    frame: Seq<Quaternion>,
    n: nat,
) -> (Seq<Bone>, Seq<Joint>)
    decreases n,
{
    if n == 0 {
        (bones, canonical_joints(joints))
    } else {
        let prev = fed(rig, head, bones, joints, frame, (n - 1) as nat);
        let b = posed(prev.0, frame);
        (b, written(rig, b, prev.1[head.slot()].position, prev.1))
    }
}

/// Feeding the same frame over and over: from the first time on, the bones
/// and joints no longer change, so each of the `n` frames gives the same
/// output records as the first, up to NaN payloads. This needs the rig not to write the head
/// joint it starts from.
pub proof fn lemma_constant_frames(
    rig: Rig,
    head: JointId,
    bones: Seq<Bone>,
    joints: Seq<Joint>,
    frame: Seq<Quaternion>,
    n: nat,
)
    requires
        frame.len() == SENSOR_COUNT,
        bones.len() == BONE_COUNT,
        joints.len() == JOINT_COUNT,
        !writes_to(rig, head.slot()),
        n >= 1,
    ensures
        fed(rig, head, bones, joints, frame, n) == fed(rig, head, bones, joints, frame, 1),
        tracker_poses(fed(rig, head, bones, joints, frame, n).1, frame)
            == tracker_poses(fed(rig, head, bones, joints, frame, 1).1, frame),
    decreases n,
{
    reveal_with_fuel(fed, 2);
    if n > 1 {
        lemma_constant_frames(rig, head, bones, joints, frame, (n - 1) as nat);
        let b = posed(bones, frame);
        let js = canonical_joints(joints);
        let h = js[head.slot()].position;
        assert(posed(b, frame) =~= b);
        lemma_unwritten_kept(rig, b, h, js, head.slot());
        lemma_pass_twice(rig, b, h, js);
    }
}

/// Where the pipeline stands: which event it waits on.
#[derive(Clone, Copy, Debug, PartialEq, Eq, Structural)]
pub enum Stage {
    /// Waiting for a downstream consumer.
    Accepting,
    /// Waiting for an upstream connection.
    Connecting,
    /// Waiting for an upstream frame.
    Receiving,
    /// Waiting for the output of the last frame to be sent.
    Sending,
}

/// What the caller does next.
#[derive(Clone, Copy, Debug)]
pub enum Command {
    /// Block until a downstream consumer connects.
    Accept,
    /// Connect upstream to the candidate address at this index.
    Connect(usize),
    /// Receive one frame on the current upstream connection.
    Receive,
    /// Send these records downstream.
    Send([TrackerPose; TRACKER_COUNT]),
}

/// A failure for the caller to report.
#[derive(Clone, Copy, Debug, PartialEq, Eq, Structural)]
pub enum Fault {
    Accept,
    Connect,
    Receive,
    Structure(SkeletonError),
    Send,
}

/// What happened when the caller performed the last command.
#[derive(Clone, Copy, Debug)]
pub enum Event {
    Accepted,
    AcceptFailed,
    Connected,
    ConnectFailed,
    Received([Quaternion; SENSOR_COUNT]),
    ReceiveFailed,
    Sent,
    SendFailed,
}

/// The decision state of the pipeline.
#[derive(Clone, Copy, Debug, PartialEq, Eq, Structural)]
pub struct Pipeline {
    pub stage: Stage,
    /// Whether a lost upstream is replaced by a connection to the next
    /// candidate address; without it the one upstream connection is kept.
    pub failover: bool,
    /// How many candidate upstream addresses there are.
    pub candidates: usize,
    /// The candidate the current upstream connection goes to.
    pub candidate: usize,
    /// Whether the current upstream connection can still be used.
    pub upstream_live: bool,
}

/// The candidate after the current one, going round the list.
pub open spec fn next_candidate(p: Pipeline) -> usize {
    if p.candidates == 0 {
        0
    } else {
        ((p.candidate as int + 1) % (p.candidates as int)) as usize
    }
}

/// Entering the upstream state: a usable connection, or the one fixed
/// connection when there is no failover, is read from at once; otherwise the
/// next candidate is connected to.
pub open spec fn upstream_entry(p: Pipeline) -> (Pipeline, Command) {
    if p.upstream_live || !p.failover || p.candidates == 0 {
        (Pipeline { stage: Stage::Receiving, upstream_live: true, ..p }, Command::Receive)
    } else {
        let c = next_candidate(p);
        (Pipeline { stage: Stage::Connecting, candidate: c, ..p }, Command::Connect(c))
    }
}

/// Back to the outer state: the downstream consumer and the upstream
/// connection are both given up.
pub open spec fn restart(p: Pipeline) -> Pipeline {
    Pipeline { stage: Stage::Accepting, upstream_live: false, ..p }
}

fn next_candidate_of(p: &Pipeline) -> (r: usize)
    ensures
        r == next_candidate(*p),
{
    if p.candidates == 0 {
        0
    } else {
        let c = p.candidate % p.candidates;
        proof {
            let n = p.candidates as int;
            let a = p.candidate as int;
            lemma_fundamental_div_mod(a, n);
            lemma_mod_multiples_vanish(a / n, c as int + 1, n);
            assert(a + 1 == n * (a / n) + (c as int + 1));
        }
        if c + 1 == p.candidates {
            proof {
                lemma_mod_self_0(p.candidates as int);
            }
            0
        } else {
            proof {
                lemma_small_mod((c + 1) as nat, p.candidates as nat);
            }
            c + 1
        }
    }
}

fn enter_upstream(p: Pipeline) -> (r: (Pipeline, Command))
    ensures
        r == upstream_entry(p),
{
    if p.upstream_live || !p.failover || p.candidates == 0 {
        (Pipeline { stage: Stage::Receiving, upstream_live: true, ..p }, Command::Receive)
    } else {
        let c = next_candidate_of(&p);
        (Pipeline { stage: Stage::Connecting, candidate: c, ..p }, Command::Connect(c))
    }
}

/// The bit pattern of `0.77`, the spine's length in meters.
pub const SPINE_LENGTH: u32 = 0x3f45_1eb8;

/// The bit pattern of `0.15`, each hip offset's length in meters.
pub const HIP_OFFSET_LENGTH: u32 = 0x3e19_999a;

/// The bit pattern of `0.48`, each upper leg's length in meters.
pub const UPPER_LEG_LENGTH: u32 = 0x3ef5_c28f;

/// The bit pattern of `0.42`, each lower leg's length in meters.
pub const LOWER_LEG_LENGTH: u32 = 0x3ed7_0a3d;

/// The bit pattern of `0.20`, each foot's length in meters.
pub const FOOT_LENGTH: u32 = 0x3e4c_cccd;

/// The bit pattern of 90 degrees in radians, as `90.0f32.to_radians()`.
pub const QUARTER_TURN: u32 = 0x3fc9_0fdb;

/// The bit pattern of -90 degrees in radians.
pub const NEG_QUARTER_TURN: u32 = 0xbfc9_0fdb;

/// The length the rig gives the bone at `slot`.
pub open spec fn rig_length(slot: int) -> u32 {
    if slot == BoneId::Spine.slot() {
        SPINE_LENGTH
    } else if slot == BoneId::LeftHipOffset.slot() || slot == BoneId::RightHipOffset.slot() {
        HIP_OFFSET_LENGTH
    } else if slot == BoneId::LeftUpperLeg.slot() || slot == BoneId::RightUpperLeg.slot() {
        UPPER_LEG_LENGTH
    } else if slot == BoneId::LeftLowerLeg.slot() || slot == BoneId::RightLowerLeg.slot() {
        LOWER_LEG_LENGTH
    } else {
        FOOT_LENGTH
    }
}

/// The rig and the pipeline's decision state.
#[derive(Debug)]
pub struct Server {
    skeleton: Skeleton,
    pipeline: Pipeline,
}

impl Server {
    /// The rig.
    pub closed spec fn rig_state(&self) -> Skeleton {
        self.skeleton
    }

    /// The pipeline's decision state.
    pub closed spec fn state(&self) -> Pipeline {
        self.pipeline
    }

    pub fn pipeline(&self) -> (r: Pipeline)
        ensures
            r == self.state(),
    {
        self.pipeline
    }

    pub fn skeleton(&self) -> (r: &Skeleton)
        ensures
            *r == self.rig_state(),
    {
        &self.skeleton
    }

    /// The humanoid rig with its fixed proportions, the hip offsets turned a
    /// quarter turn about the z axis (left positive, right negative), and a
    /// pipeline waiting for a downstream consumer, with the upstream
    /// connection to the first of `candidates` addresses already made.
    pub fn new(auto_switch_streamer: bool, candidates: usize) -> (r: Server)
        ensures
            r.rig_state().rig() == humanoid_rig(),
            r.rig_state().head() == JointId::Head,
            forall|i: int| 0 <= i < BONE_COUNT ==> #[trigger] r.rig_state().bone_table()[i].length == rig_length(i),
            forall|i: int|
                0 <= i < BONE_COUNT && i != BoneId::LeftHipOffset.slot() && i != BoneId::RightHipOffset.slot()
                    ==> #[trigger] r.rig_state().bone_table()[i].rotation == Quaternion::unit(),
            forall|i: int| 0 <= i < JOINT_COUNT ==> #[trigger] r.rig_state().joint_table()[i].position == Vector3::zero(),
            r.rig_state().bone_table()[BoneId::LeftHipOffset.slot()].rotation.x == ZERO_BITS,
            r.rig_state().bone_table()[BoneId::LeftHipOffset.slot()].rotation.y == ZERO_BITS,
            r.rig_state().bone_table()[BoneId::RightHipOffset.slot()].rotation.x == ZERO_BITS,
            r.rig_state().bone_table()[BoneId::RightHipOffset.slot()].rotation.y == ZERO_BITS,
            r.state() == (Pipeline {
                stage: Stage::Accepting,
                failover: auto_switch_streamer,
                candidates,
                candidate: 0,
                upstream_live: true,
            }),
    {
        let mut skeleton = Skeleton::default();
        proof {
            skeleton.lemma_table_sizes();
        }
        let identity = Quaternion::identity();
        skeleton.set_bone(BoneId::Spine, Bone::new(SPINE_LENGTH, identity));
        skeleton.set_bone(BoneId::LeftHipOffset, Bone::new(HIP_OFFSET_LENGTH, rotation_about_z(QUARTER_TURN)));
        skeleton.set_bone(BoneId::LeftUpperLeg, Bone::new(UPPER_LEG_LENGTH, identity));
        skeleton.set_bone(BoneId::LeftLowerLeg, Bone::new(LOWER_LEG_LENGTH, identity));
        skeleton.set_bone(BoneId::LeftFoot, Bone::new(FOOT_LENGTH, identity));
        skeleton.set_bone(BoneId::RightHipOffset, Bone::new(HIP_OFFSET_LENGTH, rotation_about_z(NEG_QUARTER_TURN)));
        skeleton.set_bone(BoneId::RightUpperLeg, Bone::new(UPPER_LEG_LENGTH, identity));
        skeleton.set_bone(BoneId::RightLowerLeg, Bone::new(LOWER_LEG_LENGTH, identity));
        skeleton.set_bone(BoneId::RightFoot, Bone::new(FOOT_LENGTH, identity));
        proof {
            skeleton.lemma_table_sizes();
        }
        let pipeline = Pipeline {
            stage: Stage::Accepting,
            failover: auto_switch_streamer,
            candidates,
            candidate: 0,
            upstream_live: true,
        };
        Server { skeleton, pipeline }
    }

    /// Decides what follows `event`: the next stage and the command for the
    /// caller, with a fault to report where one occurred. A frame is written
    /// into the rig and evaluated; a malformed rig or a failed send restarts
    /// from the outer state, a lost upstream only from the upstream state.
    pub fn step(&mut self, event: Event) -> (r: (Command, Option<Fault>))
        ensures
            !(event is Received) ==> final(self).rig_state() == old(self).rig_state(),
            match event {
                Event::Accepted => (final(self).state(), r.0) == upstream_entry(old(self).state()) && r.1 is None,
                Event::AcceptFailed => {
                    &&& final(self).state() == Pipeline { stage: Stage::Accepting, ..old(self).state() }
                    &&& r.0 == Command::Accept
                    &&& r.1 == Some(Fault::Accept)
                },
                Event::Connected => {
                    &&& final(self).state() == Pipeline { stage: Stage::Receiving, upstream_live: true, ..old(self).state() }
                    &&& r.0 == Command::Receive
                    &&& r.1 is None
                },
                Event::ConnectFailed => {
                    let c = next_candidate(old(self).state());
                    &&& final(self).state() == Pipeline { stage: Stage::Connecting, candidate: c, ..old(self).state() }
                    &&& r.0 == Command::Connect(c)
                    &&& r.1 == Some(Fault::Connect)
                },
                Event::Received(frame) => {
                    let before = old(self).rig_state();
                    let after = final(self).rig_state();
                    &&& after.rig() == before.rig()
                    &&& after.head() == before.head()
                    &&& after.bone_table() == posed(before.bone_table(), frame@)
                    &&& canonical_joints(after.joint_table()) == written(
                        before.rig(),
                        posed(before.bone_table(), frame@),
                        before.head_position(),
                        canonical_joints(before.joint_table()),
                    )
                    &&& well_formed(before.rig()) ==> {
                        &&& final(self).state() == Pipeline { stage: Stage::Sending, ..old(self).state() }
                        &&& r.1 is None
                        &&& match r.0 {
                            Command::Send(poses) => poses@ == tracker_poses(after.joint_table(), frame@),
                            _ => false,
                        }
                    }
                    &&& !well_formed(before.rig()) ==> {
                        &&& final(self).state() == restart(old(self).state())
                        &&& r.0 == Command::Accept
                        &&& r.1 == Some(Fault::Structure(SkeletonError::InvalidStructure))
                    }
                },
                Event::ReceiveFailed => {
                    &&& (final(self).state(), r.0) == upstream_entry(Pipeline { upstream_live: false, ..old(self).state() })
                    &&& r.1 == Some(Fault::Receive)
                },
                Event::Sent => {
                    &&& final(self).state() == Pipeline { stage: Stage::Receiving, ..old(self).state() }
                    &&& r.0 == Command::Receive
                    &&& r.1 is None
                },
                Event::SendFailed => {
                    &&& final(self).state() == restart(old(self).state())
                    &&& r.0 == Command::Accept
                    &&& r.1 == Some(Fault::Send)
                },
            },
    {
        let p = self.pipeline;
        match event {
            Event::Accepted => {
                let (next, command) = enter_upstream(p);
                self.pipeline = next;
                (command, None)
            },
            Event::AcceptFailed => {
                self.pipeline = Pipeline { stage: Stage::Accepting, ..p };
                (Command::Accept, Some(Fault::Accept))
            },
            Event::Connected => {
                self.pipeline = Pipeline { stage: Stage::Receiving, upstream_live: true, ..p };
                (Command::Receive, None)
            },
            Event::ConnectFailed => {
                let c = next_candidate_of(&p);
                self.pipeline = Pipeline { stage: Stage::Connecting, candidate: c, ..p };
                (Command::Connect(c), Some(Fault::Connect))
            },
            Event::Received(frame) => {
                match track(&mut self.skeleton, &frame) {
                    Ok(poses) => {
                        self.pipeline = Pipeline { stage: Stage::Sending, ..p };
                        (Command::Send(poses), None)
                    },
                    Err(e) => {
                        self.pipeline = Pipeline { stage: Stage::Accepting, upstream_live: false, ..p };
                        (Command::Accept, Some(Fault::Structure(e)))
                    },
                }
            },
            Event::ReceiveFailed => {
                let (next, command) = enter_upstream(Pipeline { upstream_live: false, ..p });
                self.pipeline = next;
                (command, Some(Fault::Receive))
            },
            Event::Sent => {
                self.pipeline = Pipeline { stage: Stage::Receiving, ..p };
                (Command::Receive, None)
            },
            Event::SendFailed => {
                self.pipeline = Pipeline { stage: Stage::Accepting, upstream_live: false, ..p };
                (Command::Accept, Some(Fault::Send))
            },
        }
    }
}

} // verus!
