//! Trusted layer over the `glam` vector library.
//!
//! Vertices, normals, colors and camera vectors are `glam::Vec3A` values and
//! rotations are `glam::Quat` values. Both are opaque here: the library never
//! reads a component. Every arithmetic operation the geometry pipeline
//! performs goes through one of the wrappers below, and each wrapper names
//! its result with an uninterpreted spec function, so that contracts can say
//! exactly which operations were applied, in which order, to which inputs.
//!
//! Scalars cross the library boundary as the `u32` bit patterns of IEEE 754
//! single-precision values; `vec_from_bits` is the only way the library
//! builds a vector out of such scalars.

use vstd::prelude::*;

verus! {

#[verifier::external_type_specification]
#[verifier::external_body]
pub struct ExVec3A(glam::Vec3A);

#[verifier::external_type_specification]
#[verifier::external_body]
pub struct ExQuat(glam::Quat);

/// The vector whose components are the single-precision values with the
/// given bit patterns.
pub uninterp spec fn vec_of_bits(x: u32, y: u32, z: u32) -> glam::Vec3A;

/// The quaternion whose components are the single-precision values with the
/// given bit patterns.
pub uninterp spec fn quat_of_bits(x: u32, y: u32, z: u32, w: u32) -> glam::Quat;

/// The vector with one scalar's bit pattern in all three components.
pub open spec fn splat_of(b: u32) -> glam::Vec3A {
    vec_of_bits(b, b, b)
}

/// Componentwise product of two vectors.
pub uninterp spec fn vec_mul(a: glam::Vec3A, b: glam::Vec3A) -> glam::Vec3A;

/// Componentwise sum of two vectors.
pub uninterp spec fn vec_add(a: glam::Vec3A, b: glam::Vec3A) -> glam::Vec3A;

/// Componentwise difference of two vectors.
pub uninterp spec fn vec_sub(a: glam::Vec3A, b: glam::Vec3A) -> glam::Vec3A;

/// The vector rotated by the quaternion.
pub uninterp spec fn quat_rotate(q: glam::Quat, v: glam::Vec3A) -> glam::Vec3A;

/// The vector scaled to unit length.
pub uninterp spec fn vec_unit(v: glam::Vec3A) -> glam::Vec3A;

/// The vector clamped componentwise between two bounds.
pub uninterp spec fn vec_clamp(v: glam::Vec3A, lo: glam::Vec3A, hi: glam::Vec3A) -> glam::Vec3A;

/// Relies on `glam::Vec3A::from_array`; `bytemuck::cast` reinterprets the
/// three bit patterns as single-precision components.
#[verifier::external_body]
pub fn vec_from_bits(x: u32, y: u32, z: u32) -> (r: glam::Vec3A)
    ensures
        r == vec_of_bits(x, y, z),
{
    glam::Vec3A::from_array(bytemuck::cast([x, y, z]))
}

/// Relies on `glam::Quat::from_array`; `bytemuck::cast` reinterprets the
/// four bit patterns as single-precision components.
#[verifier::external_body]
pub fn quat_from_bits(x: u32, y: u32, z: u32, w: u32) -> (r: glam::Quat)
    ensures
        r == quat_of_bits(x, y, z, w),
{
    glam::Quat::from_array(bytemuck::cast([x, y, z, w]))
}

/// Relies on `glam::Vec3A`'s componentwise `Mul`.
#[verifier::external_body]
pub fn mul_vec(a: &glam::Vec3A, b: &glam::Vec3A) -> (r: glam::Vec3A)
    ensures
        r == vec_mul(*a, *b),
{
    *a * *b
}

/// Relies on `glam::Vec3A`'s componentwise `Add`.
#[verifier::external_body]
pub fn add_vec(a: &glam::Vec3A, b: &glam::Vec3A) -> (r: glam::Vec3A)
    ensures
        r == vec_add(*a, *b),
{
    *a + *b
}

/// Relies on `glam::Vec3A`'s componentwise `Sub`.
#[verifier::external_body]
pub fn sub_vec(a: &glam::Vec3A, b: &glam::Vec3A) -> (r: glam::Vec3A)
    ensures
        r == vec_sub(*a, *b),
{
    *a - *b
}

/// Relies on `Mul<glam::Vec3A> for glam::Quat`: rotation of the vector by
/// the quaternion.
#[verifier::external_body]
pub fn rotate_vec(q: &glam::Quat, v: &glam::Vec3A) -> (r: glam::Vec3A)
    ensures
        r == quat_rotate(*q, *v),
{
    *q * *v
}

/// Relies on `glam::Vec3A::normalize`.
#[verifier::external_body]
pub fn normalize_vec(v: &glam::Vec3A) -> (r: glam::Vec3A)
    ensures
        r == vec_unit(*v),
{
    v.normalize()
}

/// Relies on `glam::Vec3A::clamp` (componentwise).
#[verifier::external_body]
pub fn clamp_vec(v: &glam::Vec3A, lo: &glam::Vec3A, hi: &glam::Vec3A) -> (r: glam::Vec3A)
    ensures
        r == vec_clamp(*v, *lo, *hi),
{
    v.clamp(*lo, *hi)
}

/// Relies on `glam::Vec3A` being `Copy`.
#[verifier::external_body]
pub fn copy_vec(v: &glam::Vec3A) -> (r: glam::Vec3A)
    ensures
        r == *v,
{
    *v
}

/// Relies on `glam::Quat` being `Copy`.
#[verifier::external_body]
pub fn copy_quat(q: &glam::Quat) -> (r: glam::Quat)
    ensures
        r == *q,
{
    *q
}

/// Bit pattern of the single-precision value 1.0.
pub const F32_ONE_BITS: u32 = 0x3f80_0000;

/// The zero vector.
pub fn vec_zero() -> (r: glam::Vec3A)
    ensures
        r == vec_of_bits(0, 0, 0),
{
    vec_from_bits(0, 0, 0)
}

/// The all-ones vector.
pub fn vec_one() -> (r: glam::Vec3A)
    ensures
        r == vec_of_bits(F32_ONE_BITS, F32_ONE_BITS, F32_ONE_BITS),
{
    vec_from_bits(F32_ONE_BITS, F32_ONE_BITS, F32_ONE_BITS)
}

/// The identity rotation.
pub fn quat_identity() -> (r: glam::Quat)
    ensures
        r == quat_of_bits(0, 0, 0, F32_ONE_BITS),
{
    quat_from_bits(0, 0, 0, F32_ONE_BITS)
}

} // verus!
