//! Rotations and ray intersections in four-dimensional Euclidean space, in
//! fixed-point arithmetic.
//!
//! Orientations are rotors: elements of the even subalgebra of the geometric
//! algebra of the space, composed by the geometric product and applied to
//! vectors by the sandwich product. On top of them stand a camera with its
//! input handling, and the intersection of rays with hyperspheres and
//! hyperplanes.
//!
//! Every number is a `scalar::Scalar`, an integer that counts 65536ths. The
//! contract of each operation states its result exactly, rounding and
//! saturation included, over the exact algebra of the module `algebra`. The
//! laws of that algebra are proved in `laws` and `ray_laws`, what holds of the
//! stored operations in spite of rounding in `rotor_laws`, and how far
//! rounding can move a result in `rounding`.
pub mod algebra;
pub mod arith;
pub mod camera;
pub mod gpu_buffers;
pub mod laws;
pub mod objects;
pub mod quaternion;
pub mod ray;
pub mod ray_laws;
pub mod rotor;
pub mod rotor_laws;
pub mod rounding;
pub mod scalar;
pub mod scene;
pub mod state;
pub mod vector;
