//! The objects of a scene: hyperspheres and hyperplanes.
use crate::algebra::vector_sum;
use crate::scalar::Scalar;
use crate::vector::{saturated_vector, Vector4};
use vstd::prelude::*;

verus! {

/// The set of points at distance `radius` from `position`.
#[derive(Clone, Copy, Debug, PartialEq, Eq, Structural)]
pub struct HyperSphere {
    pub position: Vector4,
    pub radius: Scalar,
    pub material: u32,
}

/// The hyperplane through `position` that is orthogonal to `normal`.
#[derive(Clone, Copy, Debug, PartialEq, Eq, Structural)]
pub struct HyperPlane {
    pub position: Vector4,
    pub normal: Vector4,
    pub material: u32,
}

/// An object of the scene.
#[derive(Clone, Copy, Debug, PartialEq, Eq, Structural)]
pub enum Object {
    HyperSphere(HyperSphere),
    HyperPlane(HyperPlane),
}

impl Object {
    /// The position of the object, whatever its kind.
    pub open spec fn spec_position(self) -> Vector4 {
        match self {
            Object::HyperSphere(hyper_sphere) => hyper_sphere.position,
            Object::HyperPlane(hyper_plane) => hyper_plane.position,
        }
    }

    /// The object with its position replaced, and nothing else changed.
    pub open spec fn with_position(self, position: Vector4) -> Object {
        match self {
            Object::HyperSphere(hyper_sphere) => Object::HyperSphere(
                HyperSphere { position, ..hyper_sphere },
            ),
            Object::HyperPlane(hyper_plane) => Object::HyperPlane(
                HyperPlane { position, ..hyper_plane },
            ),
        }
    }

    /// The position of the object.
    pub fn position(&self) -> (r: Vector4)
        ensures
            r == self.spec_position(),
    {
        match self {
            Object::HyperSphere(hyper_sphere) => hyper_sphere.position,
            Object::HyperPlane(hyper_plane) => hyper_plane.position,
        }
    }

    /// Moves the object by `offset`; its kind, shape and material stay.
    pub fn move_position(&mut self, offset: Vector4)
        ensures
            final(self).spec_position()@ == saturated_vector(
                vector_sum(old(self).spec_position()@, offset@),
            ),
            *final(self) == old(self).with_position(final(self).spec_position()),
    {
        match self {
            Object::HyperSphere(hyper_sphere) => {
                hyper_sphere.position = hyper_sphere.position.plus(offset);
            },
            Object::HyperPlane(hyper_plane) => {
                hyper_plane.position = hyper_plane.position.plus(offset);
            },
        }
    }
}

} // verus!
