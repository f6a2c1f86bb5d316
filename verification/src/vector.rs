//! Four-dimensional vectors with fixed-point coordinates.
use crate::algebra::{dot, scale_vector, vector_difference, vector_sum, VectorModel};
use crate::scalar::{narrow, saturate, scalar_mul, store, stored, Scalar};
use vstd::prelude::*;

verus! {

/// A position or direction in four-dimensional space.
#[derive(Clone, Copy, Debug, PartialEq, Eq, Structural)]
pub struct Vector4 {
    pub x: Scalar,
    pub y: Scalar,
    pub z: Scalar,
    pub w: Scalar,
}

impl View for Vector4 {
    type V = VectorModel;

    open spec fn view(&self) -> VectorModel {
        VectorModel { x: self.x as int, y: self.y as int, z: self.z as int, w: self.w as int }
    }
}

/// Every coordinate brought into the range of a scalar.
pub open spec fn saturated_vector(v: VectorModel) -> VectorModel {
    VectorModel { x: saturate(v.x), y: saturate(v.y), z: saturate(v.z), w: saturate(v.w) }
}

/// Every coordinate of an exact product stored as a scalar.
pub open spec fn stored_vector(v: VectorModel) -> VectorModel {
    VectorModel { x: stored(v.x), y: stored(v.y), z: stored(v.z), w: stored(v.w) }
}

/// The point reached from `position` by going `amount` along `direction`.
pub open spec fn advanced(position: VectorModel, direction: VectorModel, amount: int)
    -> VectorModel {
    saturated_vector(vector_sum(position, stored_vector(scale_vector(direction, amount))))
}

impl Vector4 {
    /// The vector with the given coordinates.
    pub fn new(x: Scalar, y: Scalar, z: Scalar, w: Scalar) -> (r: Vector4)
        ensures
            r == (Vector4 { x, y, z, w }),
    {
        Vector4 { x, y, z, w }
    }

    /// The origin.
    pub fn zero() -> (r: Vector4)
        ensures
            r == (Vector4 { x: 0, y: 0, z: 0, w: 0 }),
    {
        Vector4 { x: 0, y: 0, z: 0, w: 0 }
    }

    /// The sum of two vectors, each coordinate saturated.
    pub fn plus(self, rhs: Vector4) -> (r: Vector4)
        ensures
            r@ == saturated_vector(vector_sum(self@, rhs@)),
    {
        Vector4 {
            x: narrow(self.x as i128 + rhs.x as i128),
            y: narrow(self.y as i128 + rhs.y as i128),
            z: narrow(self.z as i128 + rhs.z as i128),
            w: narrow(self.w as i128 + rhs.w as i128),
        }
    }

    /// The difference of two vectors, each coordinate saturated.
    pub fn minus(self, rhs: Vector4) -> (r: Vector4)
        ensures
            r@ == saturated_vector(vector_difference(self@, rhs@)),
    {
        Vector4 {
            x: narrow(self.x as i128 - rhs.x as i128),
            y: narrow(self.y as i128 - rhs.y as i128),
            z: narrow(self.z as i128 - rhs.z as i128),
            w: narrow(self.w as i128 - rhs.w as i128),
        }
    }

    /// The vector multiplied by the scalar `k`.
    pub fn scaled(self, k: Scalar) -> (r: Vector4)
        ensures
            r@ == stored_vector(scale_vector(self@, k as int)),
    {
        Vector4 {
            x: store(scalar_mul(self.x, k)),
            y: store(scalar_mul(self.y, k)),
            z: store(scalar_mul(self.z, k)),
            w: store(scalar_mul(self.w, k)),
        }
    }

    /// The point reached from this one by going `amount` along `direction`.
    pub fn advance(self, direction: Vector4, amount: Scalar) -> (r: Vector4)
        ensures
            r@ == advanced(self@, direction@, amount as int),
    {
        self.plus(direction.scaled(amount))
    }

    /// The inner product of two vectors, before it is divided by `ONE`.
    pub fn wide_dot(self, rhs: Vector4) -> (r: i128)
        ensures
            r == dot(self@, rhs@),
            -0x1_0000_0000_0000_0000 <= r <= 0x1_0000_0000_0000_0000,
    {
        scalar_mul(self.x, rhs.x) + scalar_mul(self.y, rhs.y) + scalar_mul(self.z, rhs.z)
            + scalar_mul(self.w, rhs.w)
    }

    /// The inner product of two vectors.
    pub fn dot(self, rhs: Vector4) -> (r: Scalar)
        ensures
            r as int == stored(dot(self@, rhs@)),
    {
        store(self.wide_dot(rhs))
    }
}

} // verus!
