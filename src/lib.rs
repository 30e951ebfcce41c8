//! Skeletal rig model, forward-kinematics evaluator and the decision logic of
//! the streaming pipeline that feeds it.

pub mod geometry;
pub mod maths;
pub mod tree;
pub mod skeleton;
pub mod server;

pub use geometry::{Quaternion, Vector3};
