//! Transforms in fixed-point arithmetic: vectors, quaternions, 4x4
//! matrices, and the translation-rotation-scale composition the scene
//! graph multiplies along parent chains.

use crate::fx::{fx_add, fx_add_spec, fx_mul, fx_mul_spec, FX_ONE};
use vstd::prelude::*;

verus! {

/// Saturating fixed-point multiplication, at `i64` type.
pub open spec fn fmul(a: i64, b: i64) -> i64 {
    fx_mul_spec(a as int, b as int) as i64
}

/// Saturating addition, at `i64` type.
pub open spec fn fadd(a: i64, b: i64) -> i64 {
    fx_add_spec(a as int, b as int) as i64
}

/// Saturating negation, at `i64` type.
pub open spec fn fneg(a: i64) -> i64 {
    fx_add_spec(0, -(a as int)) as i64
}

pub fn exec_fmul(a: i64, b: i64) -> (r: i64)
    ensures
        r == fmul(a, b),
{
    fx_mul(a, b)
}

pub fn exec_fadd(a: i64, b: i64) -> (r: i64)
    ensures
        r == fadd(a, b),
{
    fx_add(a, b)
}

pub fn exec_fneg(a: i64) -> (r: i64)
    ensures
        r == fneg(a),
{
    if a == i64::MIN {
        i64::MAX
    } else {
        -a
    }
}

/// A two-component fixed-point vector (screen positions and deltas).
#[derive(Clone, Copy, Debug, PartialEq, Eq, Structural)]
pub struct Vec2f {
    pub x: i64,
    pub y: i64,
}

/// A four-component fixed-point vector (color factors).
#[derive(Clone, Copy, Debug, PartialEq, Eq, Structural)]
pub struct Vec4f {
    pub x: i64,
    pub y: i64,
    pub z: i64,
    pub w: i64,
}

#[derive(Clone, Copy, Debug, PartialEq, Eq, Structural)]
pub struct Vec3f {
    pub x: i64,
    pub y: i64,
    pub z: i64,
}

impl Vec3f {
    /// The zero vector.
    pub open spec fn zero_spec() -> Vec3f {
        Vec3f { x: 0, y: 0, z: 0 }
    }

    /// The all-ones vector (the identity scale).
    pub open spec fn one_spec() -> Vec3f {
        Vec3f { x: FX_ONE, y: FX_ONE, z: FX_ONE }
    }

    pub fn zero() -> (r: Vec3f)
        ensures
            r == Vec3f::zero_spec(),
    {
        Vec3f { x: 0, y: 0, z: 0 }
    }

    pub fn one() -> (r: Vec3f)
        ensures
            r == Vec3f::one_spec(),
    {
        Vec3f { x: FX_ONE, y: FX_ONE, z: FX_ONE }
    }
}

/// Componentwise saturating vector addition.
pub open spec fn vec3_add(a: Vec3f, b: Vec3f) -> Vec3f {
    Vec3f { x: fadd(a.x, b.x), y: fadd(a.y, b.y), z: fadd(a.z, b.z) }
}

/// Componentwise fixed-point vector multiplication.
pub open spec fn vec3_mul(a: Vec3f, b: Vec3f) -> Vec3f {
    Vec3f { x: fmul(a.x, b.x), y: fmul(a.y, b.y), z: fmul(a.z, b.z) }
}

pub fn exec_vec3_add(a: Vec3f, b: Vec3f) -> (r: Vec3f)
    ensures
        r == vec3_add(a, b),
{
    Vec3f { x: exec_fadd(a.x, b.x), y: exec_fadd(a.y, b.y), z: exec_fadd(a.z, b.z) }
}

pub fn exec_vec3_mul(a: Vec3f, b: Vec3f) -> (r: Vec3f)
    ensures
        r == vec3_mul(a, b),
{
    Vec3f { x: exec_fmul(a.x, b.x), y: exec_fmul(a.y, b.y), z: exec_fmul(a.z, b.z) }
}

/// Saturating subtraction, at `i64` type.
pub open spec fn fsub(a: i64, b: i64) -> i64 {
    fadd(a, fneg(b))
}

pub fn exec_fsub(a: i64, b: i64) -> (r: i64)
    ensures
        r == fsub(a, b),
{
    exec_fadd(a, exec_fneg(b))
}

/// Every component scaled by the fixed-point scalar `s`.
pub open spec fn vec3_scale(s: i64, v: Vec3f) -> Vec3f {
    Vec3f { x: fmul(s, v.x), y: fmul(s, v.y), z: fmul(s, v.z) }
}

pub fn exec_vec3_scale(s: i64, v: Vec3f) -> (r: Vec3f)
    ensures
        r == vec3_scale(s, v),
{
    Vec3f { x: exec_fmul(s, v.x), y: exec_fmul(s, v.y), z: exec_fmul(s, v.z) }
}

/// The cross product in fixed point.
pub open spec fn vec3_cross(a: Vec3f, b: Vec3f) -> Vec3f {
    Vec3f {
        x: fsub(fmul(a.y, b.z), fmul(a.z, b.y)),
        y: fsub(fmul(a.z, b.x), fmul(a.x, b.z)),
        z: fsub(fmul(a.x, b.y), fmul(a.y, b.x)),
    }
}

pub fn exec_vec3_cross(a: Vec3f, b: Vec3f) -> (r: Vec3f)
    ensures
        r == vec3_cross(a, b),
{
    Vec3f {
        x: exec_fsub(exec_fmul(a.y, b.z), exec_fmul(a.z, b.y)),
        y: exec_fsub(exec_fmul(a.z, b.x), exec_fmul(a.x, b.z)),
        z: exec_fsub(exec_fmul(a.x, b.y), exec_fmul(a.y, b.x)),
    }
}

#[derive(Clone, Copy, Debug, PartialEq, Eq, Structural)]
pub struct Quatf {
    pub x: i64,
    pub y: i64,
    pub z: i64,
    pub w: i64,
}

impl Quatf {
    /// The identity rotation.
    pub open spec fn identity_spec() -> Quatf {
        Quatf { x: 0, y: 0, z: 0, w: FX_ONE }
    }

    pub fn identity() -> (r: Quatf)
        ensures
            r == Quatf::identity_spec(),
    {
        Quatf { x: 0, y: 0, z: 0, w: FX_ONE }
    }
}

/// The Hamilton product `a * b`, with each term in fixed point and each
/// partial sum saturating.
pub open spec fn quat_mul(a: Quatf, b: Quatf) -> Quatf {
    Quatf {
        x: fadd(fadd(fmul(a.w, b.x), fmul(a.x, b.w)), fadd(fmul(a.y, b.z), fneg(fmul(a.z, b.y)))),
        y: fadd(fadd(fmul(a.w, b.y), fneg(fmul(a.x, b.z))), fadd(fmul(a.y, b.w), fmul(a.z, b.x))),
        z: fadd(fadd(fmul(a.w, b.z), fmul(a.x, b.y)), fadd(fneg(fmul(a.y, b.x)), fmul(a.z, b.w))),
        w: fadd(
            fadd(fmul(a.w, b.w), fneg(fmul(a.x, b.x))),
            fadd(fneg(fmul(a.y, b.y)), fneg(fmul(a.z, b.z))),
        ),
    }
}

pub fn exec_quat_mul(a: Quatf, b: Quatf) -> (r: Quatf)
    ensures
        r == quat_mul(a, b),
{
    let x = exec_fadd(
        exec_fadd(exec_fmul(a.w, b.x), exec_fmul(a.x, b.w)),
        exec_fadd(exec_fmul(a.y, b.z), exec_fneg(exec_fmul(a.z, b.y))),
    );
    let y = exec_fadd(
        exec_fadd(exec_fmul(a.w, b.y), exec_fneg(exec_fmul(a.x, b.z))),
        exec_fadd(exec_fmul(a.y, b.w), exec_fmul(a.z, b.x)),
    );
    let z = exec_fadd(
        exec_fadd(exec_fmul(a.w, b.z), exec_fmul(a.x, b.y)),
        exec_fadd(exec_fneg(exec_fmul(a.y, b.x)), exec_fmul(a.z, b.w)),
    );
    let w = exec_fadd(
        exec_fadd(exec_fmul(a.w, b.w), exec_fneg(exec_fmul(a.x, b.x))),
        exec_fadd(exec_fneg(exec_fmul(a.y, b.y)), exec_fneg(exec_fmul(a.z, b.z))),
    );
    Quatf { x, y, z, w }
}

/// `v` rotated by `q`, via t = 2 (q.xyz x v); v + w t + q.xyz x t.
pub open spec fn quat_rotate(q: Quatf, v: Vec3f) -> Vec3f {
    let u = Vec3f { x: q.x, y: q.y, z: q.z };
    let c = vec3_cross(u, v);
    let t = vec3_add(c, c);
    vec3_add(vec3_add(v, vec3_scale(q.w, t)), vec3_cross(u, t))
}

pub fn exec_quat_rotate(q: Quatf, v: Vec3f) -> (r: Vec3f)
    ensures
        r == quat_rotate(q, v),
{
    let u = Vec3f { x: q.x, y: q.y, z: q.z };
    let c = exec_vec3_cross(u, v);
    let t = exec_vec3_add(c, c);
    exec_vec3_add(exec_vec3_add(v, exec_vec3_scale(q.w, t)), exec_vec3_cross(u, t))
}

/// A 4x4 matrix; `mRC` is the entry at row `R`, column `C`.
#[derive(Clone, Copy, Debug, PartialEq, Eq, Structural)]
pub struct Mat4f {
    pub m00: i64,
    pub m01: i64,
    pub m02: i64,
    pub m03: i64,
    pub m10: i64,
    pub m11: i64,
    pub m12: i64,
    pub m13: i64,
    pub m20: i64,
    pub m21: i64,
    pub m22: i64,
    pub m23: i64,
    pub m30: i64,
    pub m31: i64,
    pub m32: i64,
    pub m33: i64,
}

impl Mat4f {
    /// The identity matrix.
    pub open spec fn identity_spec() -> Mat4f {
        Mat4f {
            m00: FX_ONE,
            m01: 0,
            m02: 0,
            m03: 0,
            m10: 0,
            m11: FX_ONE,
            m12: 0,
            m13: 0,
            m20: 0,
            m21: 0,
            m22: FX_ONE,
            m23: 0,
            m30: 0,
            m31: 0,
            m32: 0,
            m33: FX_ONE,
        }
    }

    pub fn identity() -> (r: Mat4f)
        ensures
            r == Mat4f::identity_spec(),
    {
        Mat4f {
            m00: FX_ONE,
            m01: 0,
            m02: 0,
            m03: 0,
            m10: 0,
            m11: FX_ONE,
            m12: 0,
            m13: 0,
            m20: 0,
            m21: 0,
            m22: FX_ONE,
            m23: 0,
            m30: 0,
            m31: 0,
            m32: 0,
            m33: FX_ONE,
        }
    }
}

/// One entry of a matrix product: the dot product of a row of `a` with a
/// column of `b`, saturating at each partial sum.
pub open spec fn mat_entry(r0: i64, r1: i64, r2: i64, r3: i64, c0: i64, c1: i64, c2: i64, c3: i64) -> i64 {
    fadd(fadd(fmul(r0, c0), fmul(r1, c1)), fadd(fmul(r2, c2), fmul(r3, c3)))
}

/// The matrix product `a * b`.
pub open spec fn mat_mul(a: Mat4f, b: Mat4f) -> Mat4f {
    Mat4f {
        m00: mat_entry(a.m00, a.m01, a.m02, a.m03, b.m00, b.m10, b.m20, b.m30),
        m01: mat_entry(a.m00, a.m01, a.m02, a.m03, b.m01, b.m11, b.m21, b.m31),
        m02: mat_entry(a.m00, a.m01, a.m02, a.m03, b.m02, b.m12, b.m22, b.m32),
        m03: mat_entry(a.m00, a.m01, a.m02, a.m03, b.m03, b.m13, b.m23, b.m33),
        m10: mat_entry(a.m10, a.m11, a.m12, a.m13, b.m00, b.m10, b.m20, b.m30),
        m11: mat_entry(a.m10, a.m11, a.m12, a.m13, b.m01, b.m11, b.m21, b.m31),
        m12: mat_entry(a.m10, a.m11, a.m12, a.m13, b.m02, b.m12, b.m22, b.m32),
        m13: mat_entry(a.m10, a.m11, a.m12, a.m13, b.m03, b.m13, b.m23, b.m33),
        m20: mat_entry(a.m20, a.m21, a.m22, a.m23, b.m00, b.m10, b.m20, b.m30),
        m21: mat_entry(a.m20, a.m21, a.m22, a.m23, b.m01, b.m11, b.m21, b.m31),
        m22: mat_entry(a.m20, a.m21, a.m22, a.m23, b.m02, b.m12, b.m22, b.m32),
        m23: mat_entry(a.m20, a.m21, a.m22, a.m23, b.m03, b.m13, b.m23, b.m33),
        m30: mat_entry(a.m30, a.m31, a.m32, a.m33, b.m00, b.m10, b.m20, b.m30),
        m31: mat_entry(a.m30, a.m31, a.m32, a.m33, b.m01, b.m11, b.m21, b.m31),
        m32: mat_entry(a.m30, a.m31, a.m32, a.m33, b.m02, b.m12, b.m22, b.m32),
        m33: mat_entry(a.m30, a.m31, a.m32, a.m33, b.m03, b.m13, b.m23, b.m33),
    }
}

fn exec_mat_entry(r0: i64, r1: i64, r2: i64, r3: i64, c0: i64, c1: i64, c2: i64, c3: i64) -> (r:
    i64)
    ensures
        r == mat_entry(r0, r1, r2, r3, c0, c1, c2, c3),
{
    exec_fadd(
        exec_fadd(exec_fmul(r0, c0), exec_fmul(r1, c1)),
        exec_fadd(exec_fmul(r2, c2), exec_fmul(r3, c3)),
    )
}

pub fn exec_mat_mul(a: &Mat4f, b: &Mat4f) -> (r: Mat4f)
    ensures
        r == mat_mul(*a, *b),
{
    Mat4f {
        m00: exec_mat_entry(a.m00, a.m01, a.m02, a.m03, b.m00, b.m10, b.m20, b.m30),
        m01: exec_mat_entry(a.m00, a.m01, a.m02, a.m03, b.m01, b.m11, b.m21, b.m31),
        m02: exec_mat_entry(a.m00, a.m01, a.m02, a.m03, b.m02, b.m12, b.m22, b.m32),
        m03: exec_mat_entry(a.m00, a.m01, a.m02, a.m03, b.m03, b.m13, b.m23, b.m33),
        m10: exec_mat_entry(a.m10, a.m11, a.m12, a.m13, b.m00, b.m10, b.m20, b.m30),
        m11: exec_mat_entry(a.m10, a.m11, a.m12, a.m13, b.m01, b.m11, b.m21, b.m31),
        m12: exec_mat_entry(a.m10, a.m11, a.m12, a.m13, b.m02, b.m12, b.m22, b.m32),
        m13: exec_mat_entry(a.m10, a.m11, a.m12, a.m13, b.m03, b.m13, b.m23, b.m33),
        m20: exec_mat_entry(a.m20, a.m21, a.m22, a.m23, b.m00, b.m10, b.m20, b.m30),
        m21: exec_mat_entry(a.m20, a.m21, a.m22, a.m23, b.m01, b.m11, b.m21, b.m31),
        m22: exec_mat_entry(a.m20, a.m21, a.m22, a.m23, b.m02, b.m12, b.m22, b.m32),
        m23: exec_mat_entry(a.m20, a.m21, a.m22, a.m23, b.m03, b.m13, b.m23, b.m33),
        m30: exec_mat_entry(a.m30, a.m31, a.m32, a.m33, b.m00, b.m10, b.m20, b.m30),
        m31: exec_mat_entry(a.m30, a.m31, a.m32, a.m33, b.m01, b.m11, b.m21, b.m31),
        m32: exec_mat_entry(a.m30, a.m31, a.m32, a.m33, b.m02, b.m12, b.m22, b.m32),
        m33: exec_mat_entry(a.m30, a.m31, a.m32, a.m33, b.m03, b.m13, b.m23, b.m33),
    }
}

/// The projection correction applied after the perspective matrix: it
/// halves the depth range (mapping the GL convention's -1..1 onto the
/// 0..1 the target API samples) and leaves x and y untouched.
pub fn correction_matrix() -> (r: Mat4f)
    ensures
        r == (Mat4f {
            m22: (FX_ONE / 2) as i64,
            m23: (FX_ONE / 2) as i64,
            ..Mat4f::identity_spec()
        }),
{
    Mat4f {
        m00: FX_ONE,
        m01: 0,
        m02: 0,
        m03: 0,
        m10: 0,
        m11: FX_ONE,
        m12: 0,
        m13: 0,
        m20: 0,
        m21: 0,
        m22: FX_ONE / 2,
        m23: FX_ONE / 2,
        m30: 0,
        m31: 0,
        m32: 0,
        m33: FX_ONE,
    }
}

/// A position, scale and rotation, composed as translation * rotation *
/// scale when turned into a matrix.
#[derive(Clone, Copy, Debug, PartialEq, Eq, Structural)]
pub struct Transform {
    pub position: Vec3f,
    pub scale: Vec3f,
    pub rotation: Quatf,
}

impl Transform {
    /// The identity transform.
    pub open spec fn identity_spec() -> Transform {
        Transform {
            position: Vec3f::zero_spec(),
            scale: Vec3f::one_spec(),
            rotation: Quatf::identity_spec(),
        }
    }

    pub fn new(position: Vec3f, scale: Vec3f, rotation: Quatf) -> (r: Transform)
        ensures
            r == (Transform { position, scale, rotation }),
    {
        Transform { position, scale, rotation }
    }

    pub fn from_position(position: Vec3f) -> (r: Transform)
        ensures
            r == (Transform { position, ..Transform::identity_spec() }),
    {
        Transform { position, scale: Vec3f::one(), rotation: Quatf::identity() }
    }

    pub fn from_rotation(rotation: Quatf) -> (r: Transform)
        ensures
            r == (Transform { rotation, ..Transform::identity_spec() }),
    {
        Transform { position: Vec3f::zero(), scale: Vec3f::one(), rotation }
    }

    pub fn from_position_rotation(position: Vec3f, rotation: Quatf) -> (r: Transform)
        ensures
            r == (Transform { position, rotation, ..Transform::identity_spec() }),
    {
        Transform { position, scale: Vec3f::one(), rotation }
    }

    /// The local matrix of this transform.
    pub fn matrix(&self) -> (r: Mat4f)
        ensures
            r == trs_matrix(*self),
    {
        exec_trs_matrix(self)
    }
}

impl Default for Transform {
    fn default() -> (r: Transform)
        ensures
            r == Transform::identity_spec(),
    {
        Transform {
            position: Vec3f::zero(),
            scale: Vec3f::one(),
            rotation: Quatf::identity(),
        }
    }
}

/// Twice `a`, saturating.
pub open spec fn fdbl(a: i64) -> i64 {
    fadd(a, a)
}

/// The translation * rotation * scale matrix of a transform. The upper
/// 3x3 block is the quaternion's rotation matrix with each column scaled
/// by the matching scale component; the last column holds the position.
pub open spec fn trs_matrix(t: Transform) -> Mat4f {
    let q = t.rotation;
    let r00 = fadd(FX_ONE, fneg(fdbl(fadd(fmul(q.y, q.y), fmul(q.z, q.z)))));
    let r01 = fdbl(fadd(fmul(q.x, q.y), fneg(fmul(q.z, q.w))));
    let r02 = fdbl(fadd(fmul(q.x, q.z), fmul(q.y, q.w)));
    let r10 = fdbl(fadd(fmul(q.x, q.y), fmul(q.z, q.w)));
    let r11 = fadd(FX_ONE, fneg(fdbl(fadd(fmul(q.x, q.x), fmul(q.z, q.z)))));
    let r12 = fdbl(fadd(fmul(q.y, q.z), fneg(fmul(q.x, q.w))));
    let r20 = fdbl(fadd(fmul(q.x, q.z), fneg(fmul(q.y, q.w))));
    let r21 = fdbl(fadd(fmul(q.y, q.z), fmul(q.x, q.w)));
    let r22 = fadd(FX_ONE, fneg(fdbl(fadd(fmul(q.x, q.x), fmul(q.y, q.y)))));
    Mat4f {
        m00: fmul(r00, t.scale.x),
        m01: fmul(r01, t.scale.y),
        m02: fmul(r02, t.scale.z),
        m03: t.position.x,
        m10: fmul(r10, t.scale.x),
        m11: fmul(r11, t.scale.y),
        m12: fmul(r12, t.scale.z),
        m13: t.position.y,
        m20: fmul(r20, t.scale.x),
        m21: fmul(r21, t.scale.y),
        m22: fmul(r22, t.scale.z),
        m23: t.position.z,
        m30: 0,
        m31: 0,
        m32: 0,
        m33: FX_ONE,
    }
}

pub fn exec_trs_matrix(t: &Transform) -> (r: Mat4f)
    ensures
        r == trs_matrix(*t),
{
    let q = t.rotation;
    let r00 = exec_fadd(
        FX_ONE,
        exec_fneg(exec_fdbl(exec_fadd(exec_fmul(q.y, q.y), exec_fmul(q.z, q.z)))),
    );
    let r01 = exec_fdbl(exec_fadd(exec_fmul(q.x, q.y), exec_fneg(exec_fmul(q.z, q.w))));
    let r02 = exec_fdbl(exec_fadd(exec_fmul(q.x, q.z), exec_fmul(q.y, q.w)));
    let r10 = exec_fdbl(exec_fadd(exec_fmul(q.x, q.y), exec_fmul(q.z, q.w)));
    let r11 = exec_fadd(
        FX_ONE,
        exec_fneg(exec_fdbl(exec_fadd(exec_fmul(q.x, q.x), exec_fmul(q.z, q.z)))),
    );
    let r12 = exec_fdbl(exec_fadd(exec_fmul(q.y, q.z), exec_fneg(exec_fmul(q.x, q.w))));
    let r20 = exec_fdbl(exec_fadd(exec_fmul(q.x, q.z), exec_fneg(exec_fmul(q.y, q.w))));
    let r21 = exec_fdbl(exec_fadd(exec_fmul(q.y, q.z), exec_fmul(q.x, q.w)));
    let r22 = exec_fadd(
        FX_ONE,
        exec_fneg(exec_fdbl(exec_fadd(exec_fmul(q.x, q.x), exec_fmul(q.y, q.y)))),
    );
    Mat4f {
        m00: exec_fmul(r00, t.scale.x),
        m01: exec_fmul(r01, t.scale.y),
        m02: exec_fmul(r02, t.scale.z),
        m03: t.position.x,
        m10: exec_fmul(r10, t.scale.x),
        m11: exec_fmul(r11, t.scale.y),
        m12: exec_fmul(r12, t.scale.z),
        m13: t.position.y,
        m20: exec_fmul(r20, t.scale.x),
        m21: exec_fmul(r21, t.scale.y),
        m22: exec_fmul(r22, t.scale.z),
        m23: t.position.z,
        m30: 0,
        m31: 0,
        m32: 0,
        m33: FX_ONE,
    }
}

fn exec_fdbl(a: i64) -> (r: i64)
    ensures
        r == fdbl(a),
{
    exec_fadd(a, a)
}

} // verus!
