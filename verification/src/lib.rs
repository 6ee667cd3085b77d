//! The verified part of `lars`, a small linear-algebra library of 2D and 3D
//! vectors and of 2x2 and 3x3 matrices.
//!
//! Every number in `lars` is a double-precision float, and float arithmetic
//! is ordinary Rust that lives outside this crate. What is stated and proved
//! here is everything around that arithmetic: which components meet in which
//! operation and in what order, when an inverse or a unit vector is refused,
//! and the written form of a vector. The numbers themselves come in through
//! the trait [`Number`].

pub mod mat2;
pub mod mat3;
pub mod notation;
pub mod number;
pub mod vector2;
pub mod vector3;

pub use mat2::Mat2;
pub use mat3::Mat3;
pub use number::Number;
pub use vector2::{Point2D, Vec2};
pub use vector3::{Colour, Point3D, Vec3};
