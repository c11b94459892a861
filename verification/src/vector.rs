//! Three-component fixed-point vectors and the two operations the
//! camera needs: componentwise addition and scaling by a scalar.

use vstd::prelude::*;
use crate::scalar::{fits, fp_mul, mul_value, Scalar};

verus! {

/// A 3-vector of fixed-point scalars.
#[derive(Clone, Copy, PartialEq, Eq, Structural, Debug)]
pub struct Vec3 {
    /// First component.
    pub x: Scalar,
    /// Second component.
    pub y: Scalar,
    /// Third component.
    pub z: Scalar,
}

/// The mathematical value of a 3-vector: unbounded integer components.
pub struct V3 {
    /// First component.
    pub x: int,
    /// Second component.
    pub y: int,
    /// Third component.
    pub z: int,
}

impl View for Vec3 {
    type V = V3;

    open spec fn view(&self) -> V3 {
        V3 { x: self.x as int, y: self.y as int, z: self.z as int }
    }
}

/// Componentwise sum of two vectors.
pub open spec fn add3(a: V3, b: V3) -> V3 {
    V3 { x: a.x + b.x, y: a.y + b.y, z: a.z + b.z }
}

/// Each component of the sum fits the executable scalar type.
pub open spec fn add3_ok(a: V3, b: V3) -> bool {
    fits(a.x + b.x) && fits(a.y + b.y) && fits(a.z + b.z)
}

/// Componentwise fixed-point product of a vector with a scalar.
pub open spec fn scale3(v: V3, s: int) -> V3 {
    V3 { x: mul_value(v.x, s), y: mul_value(v.y, s), z: mul_value(v.z, s) }
}

/// Each component of the scaled vector fits the executable scalar type.
pub open spec fn scale3_ok(v: V3, s: int) -> bool {
    fits(mul_value(v.x, s)) && fits(mul_value(v.y, s)) && fits(mul_value(v.z, s))
}

/// Componentwise vector addition.
pub fn vec3_add(a: Vec3, b: Vec3) -> (r: Vec3)
    requires
        add3_ok(a@, b@),
    ensures
        r@ == add3(a@, b@),
{
    Vec3 { x: a.x + b.x, y: a.y + b.y, z: a.z + b.z }
}

/// Componentwise fixed-point scaling of a vector by a scalar.
pub fn vec3_scale(v: Vec3, s: Scalar) -> (r: Vec3)
    requires
        scale3_ok(v@, s as int),
    ensures
        r@ == scale3(v@, s as int),
{
    Vec3 { x: fp_mul(v.x, s), y: fp_mul(v.y, s), z: fp_mul(v.z, s) }
}

} // verus!
