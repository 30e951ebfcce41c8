//! Vectors and quaternions of IEEE-754 binary32 components, held as their bit
//! patterns, and the few operations of glam that the rig needs. Values pass to
//! and from glam through `bytemuck::cast`, which reinterprets the bits.
use vstd::prelude::*;

verus! {

/// A 3-vector; each component is the bit pattern of an `f32`.
#[derive(Clone, Copy, Debug, PartialEq, Eq, Structural)]
pub struct Vector3 {
    pub x: u32,
    pub y: u32,
    pub z: u32,
}

/// A quaternion `(x, y, z, w)`; each component is the bit pattern of an `f32`.
#[derive(Clone, Copy, Debug, PartialEq, Eq, Structural)]
pub struct Quaternion {
    pub x: u32,
    pub y: u32,
    pub z: u32,
    pub w: u32,
}

/// The bit pattern of `+0.0`.
pub const ZERO_BITS: u32 = 0;

/// The bit pattern of `1.0`.
pub const ONE_BITS: u32 = 0x3f80_0000;

/// The bit pattern of `-1.0`.
pub const NEG_ONE_BITS: u32 = 0xbf80_0000;

/// The bit pattern every NaN is read as: the quiet NaN with a zero payload.
pub const CANONICAL_NAN: u32 = 0x7fc0_0000;

/// The bits are those of a NaN: all exponent bits set, a nonzero fraction.
pub open spec fn is_nan_bits(b: u32) -> bool {
    (b & 0x7f80_0000) == 0x7f80_0000 && (b & 0x007f_ffff) != 0
}

/// The bits with any NaN replaced by `CANONICAL_NAN`. The sign and payload
/// of a NaN that an operation produces are not fixed, so float results are
/// compared by these.
pub open spec fn canon(b: u32) -> u32 {
    if is_nan_bits(b) {
        CANONICAL_NAN
    } else {
        b
    }
}

pub proof fn lemma_canon_idempotent(b: u32)
    ensures
        canon(canon(b)) == canon(b),
{
    assert(((0x7fc0_0000u32 & 0x7f80_0000u32) == 0x7f80_0000u32) && ((0x7fc0_0000u32 & 0x007f_ffffu32) != 0u32))
        by (bit_vector);
}

impl Vector3 {
    /// Each component read through `canon`.
    pub open spec fn canonical(self) -> Vector3 {
        Vector3 { x: canon(self.x), y: canon(self.y), z: canon(self.z) }
    }

    pub proof fn lemma_canonical_idempotent(self)
        ensures
            self.canonical().canonical() == self.canonical(),
    {
        lemma_canon_idempotent(self.x);
        lemma_canon_idempotent(self.y);
        lemma_canon_idempotent(self.z);
    }

    /// The origin `(0, 0, 0)`.
    pub open spec fn zero() -> Vector3 {
        Vector3 { x: ZERO_BITS, y: ZERO_BITS, z: ZERO_BITS }
    }

    /// The direction every bone points in before its rotation: `(0, 0, -1)`.
    pub open spec fn rest_direction() -> Vector3 {
        Vector3 { x: ZERO_BITS, y: ZERO_BITS, z: NEG_ONE_BITS }
    }

    pub fn origin() -> (r: Vector3)
        ensures
            r == Vector3::zero(),
    {
        Vector3 { x: ZERO_BITS, y: ZERO_BITS, z: ZERO_BITS }
    }

    pub fn neg_z() -> (r: Vector3)
        ensures
            r == Vector3::rest_direction(),
    {
        Vector3 { x: ZERO_BITS, y: ZERO_BITS, z: NEG_ONE_BITS }
    }
}

impl Quaternion {
    /// Each component read through `canon`.
    pub open spec fn canonical(self) -> Quaternion {
        Quaternion { x: canon(self.x), y: canon(self.y), z: canon(self.z), w: canon(self.w) }
    }

    /// The identity rotation `(0, 0, 0, 1)`.
    pub open spec fn unit() -> Quaternion {
        Quaternion { x: ZERO_BITS, y: ZERO_BITS, z: ZERO_BITS, w: ONE_BITS }
    }

    pub fn identity() -> (r: Quaternion)
        ensures
            r == Quaternion::unit(),
    {
        Quaternion { x: ZERO_BITS, y: ZERO_BITS, z: ZERO_BITS, w: ONE_BITS }
    }
}

/// What glam's `Quat::mul_vec3a` gives for a quaternion and a vector, with
/// NaNs read through `canon`.
pub uninterp spec fn rotated(q: Quaternion, v: Vector3) -> Vector3;

/// Relies on glam's `Quat::mul_vec3a`: the vector rotated by the quaternion.
/// Float arithmetic fixes the result from the operands except for the sign
/// and payload of a NaN, and which components are NaN does not depend on the
/// payloads of NaN operands; so the result is stated through `canon`.
#[verifier::external_body]
pub(crate) fn rotate(q: Quaternion, v: Vector3) -> (r: Vector3)
    ensures
        r.canonical() == rotated(q.canonical(), v.canonical()),
{
    let q: glam::Quat = bytemuck::cast([q.x, q.y, q.z, q.w]);
    let v: glam::Vec3 = bytemuck::cast([v.x, v.y, v.z]);
    let r: [u32; 3] = bytemuck::cast(glam::Vec3::from(q.mul_vec3a(glam::Vec3A::from(v))));
    Vector3 { x: r[0], y: r[1], z: r[2] }
}

/// What glam's `Vec3A * f32` gives, each component times the scalar, with
/// NaNs read through `canon`.
pub uninterp spec fn scaled(v: Vector3, s: u32) -> Vector3;

/// Relies on glam's `Mul<f32> for Vec3A`: the componentwise product, fixed by
/// the operands up to the sign and payload of a NaN, as for `rotate`.
#[verifier::external_body]
pub(crate) fn scale(v: Vector3, s: u32) -> (r: Vector3)
    ensures
        r.canonical() == scaled(v.canonical(), canon(s)),
{
    let v: glam::Vec3 = bytemuck::cast([v.x, v.y, v.z]);
    // `splat` fixes the cast's target to the scalar type.
    let s = glam::Vec3A::splat(bytemuck::cast(s)).x;
    let r: [u32; 3] = bytemuck::cast(glam::Vec3::from(glam::Vec3A::from(v) * s));
    Vector3 { x: r[0], y: r[1], z: r[2] }
}

/// What glam's `Vec3A + Vec3A` gives, the componentwise sum, with NaNs read
/// through `canon`.
pub uninterp spec fn summed(a: Vector3, b: Vector3) -> Vector3;

/// Relies on glam's `Add for Vec3A`: the componentwise sum, fixed by the
/// operands up to the sign and payload of a NaN, as for `rotate`.
#[verifier::external_body]
pub(crate) fn translate(a: Vector3, b: Vector3) -> (r: Vector3)
    ensures
        r.canonical() == summed(a.canonical(), b.canonical()),
{
    let a: glam::Vec3 = bytemuck::cast([a.x, a.y, a.z]);
    let b: glam::Vec3 = bytemuck::cast([b.x, b.y, b.z]);
    let r: [u32; 3] = bytemuck::cast(glam::Vec3::from(glam::Vec3A::from(a) + glam::Vec3A::from(b)));
    Vector3 { x: r[0], y: r[1], z: r[2] }
}

/// Relies on glam's `Quat::from_rotation_z`: it builds `(0, 0, sin(a/2), cos(a/2))`
/// from the platform's sine and cosine, so only the two zero components are
/// stated.
#[verifier::external_body]
pub(crate) fn rotation_about_z(angle: u32) -> (r: Quaternion)
    ensures
        r.x == ZERO_BITS,
        r.y == ZERO_BITS,
{
    let r: [u32; 4] = bytemuck::cast(glam::Quat::from_rotation_z(bytemuck::cast(angle)));
    Quaternion { x: r[0], y: r[1], z: r[2], w: r[3] }
}

} // verus!
