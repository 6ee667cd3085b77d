//! Vectors in space.

use crate::number::Number;
use vstd::prelude::*;

verus! {

/// A vector with three components. A point in space and a colour are such
/// vectors too.
#[derive(Clone, Copy, Debug, PartialEq, PartialOrd)]
pub struct Vec3<T> {
    /// X component.
    pub x: T,
    /// Y component.
    pub y: T,
    /// Z component.
    pub z: T,
}

/// An RGB colour, each component by convention between zero and one.
pub type Colour<T> = Vec3<T>;

/// A position in space.
pub type Point3D<T> = Vec3<T>;

/// The dot product: the products of the components, pair by pair, summed
/// from the left.
pub open spec fn dot3<T: Number>(p: Vec3<T>, q: Vec3<T>) -> T {
    p.x.product(q.x).sum(p.y.product(q.y)).sum(p.z.product(q.z))
}

/// The cross product, by the right-hand rule:
/// `(py*qz - pz*qy, pz*qx - px*qz, px*qy - py*qx)`.
pub open spec fn cross3<T: Number>(p: Vec3<T>, q: Vec3<T>) -> Vec3<T> {
    Vec3 {
        x: p.y.product(q.z).difference(p.z.product(q.y)),
        y: p.z.product(q.x).difference(p.x.product(q.z)),
        z: p.x.product(q.y).difference(p.y.product(q.x)),
    }
}

/// The difference of two vectors, component by component.
pub open spec fn difference3<T: Number>(p: Vec3<T>, q: Vec3<T>) -> Vec3<T> {
    Vec3 { x: p.x.difference(q.x), y: p.y.difference(q.y), z: p.z.difference(q.z) }
}

/// The vector with each component divided by `s`.
pub open spec fn quotient3<T: Number>(p: Vec3<T>, s: T) -> Vec3<T> {
    Vec3 { x: p.x.quotient(s), y: p.y.quotient(s), z: p.z.quotient(s) }
}

/// The magnitude: the square root of the dot product of the vector with itself.
pub open spec fn magnitude3<T: Number>(p: Vec3<T>) -> T {
    dot3(p, p).square_root()
}

impl<T: Number> Vec3<T> {
    /// The vector with the given components.
    pub fn new(x: T, y: T, z: T) -> (out: Self)
        ensures
            out == (Vec3 { x, y, z }),
    {
        Vec3 { x, y, z }
    }

    /// The magnitude (Euclidean length) of the vector.
    pub fn mag(&self) -> (out: T)
        ensures
            out == magnitude3(*self),
            out == dot3(*self, *self).square_root(),
    {
        self.x.times(self.x).plus(self.y.times(self.y)).plus(self.z.times(self.z)).sqrt()
    }

    /// The dot product of `self` and `other`.
    pub fn dot(&self, other: &Vec3<T>) -> (out: T)
        ensures
            out == dot3(*self, *other),
    {
        self.x.times(other.x).plus(self.y.times(other.y)).plus(self.z.times(other.z))
    }

    /// The cross product of `self` and `other`, which is a vector.
    pub fn cross(&self, other: &Vec3<T>) -> (out: Vec3<T>)
        ensures
            out == cross3(*self, *other),
    {
        let x = self.y.times(other.z).minus(self.z.times(other.y));
        let y = self.z.times(other.x).minus(self.x.times(other.z));
        let z = self.x.times(other.y).minus(self.y.times(other.x));
        Vec3 { x, y, z }
    }

    /// Applies `f` to each component: once to `x`, then to `y`, then to `z`.
    pub fn map<F: Fn(T) -> T>(&self, f: F) -> (out: Vec3<T>)
        requires
            call_requires(f, (self.x,)),
            call_requires(f, (self.y,)),
            call_requires(f, (self.z,)),
        ensures
            call_ensures(f, (self.x,), out.x),
            call_ensures(f, (self.y,), out.y),
            call_ensures(f, (self.z,), out.z),
    {
        let fx = f(self.x);
        let fy = f(self.y);
        let fz = f(self.z);
        Vec3 { x: fx, y: fy, z: fz }
    }

    /// The vector divided by its magnitude, or `None` if the magnitude is zero.
    pub fn normalize(&self) -> (out: Option<Vec3<T>>)
        ensures
            out.is_none() <==> magnitude3(*self).is_zero(),
            out.is_some() ==> out.unwrap() == quotient3(*self, magnitude3(*self)),
    {
        let m = self.mag();
        if m.zero_valued() {
            return None;
        }
        Some(self.over(m))
    }

    /// The magnitude squared, which is the dot product of the vector with itself.
    pub fn mag_sq(&self) -> (out: T)
        ensures
            out == dot3(*self, *self),
    {
        self.x.times(self.x).plus(self.y.times(self.y)).plus(self.z.times(self.z))
    }

    /// `self + other`, component by component.
    pub fn plus(&self, other: &Vec3<T>) -> (out: Vec3<T>)
        ensures
            out == (Vec3 {
                x: self.x.sum(other.x),
                y: self.y.sum(other.y),
                z: self.z.sum(other.z),
            }),
    {
        Vec3 { x: self.x.plus(other.x), y: self.y.plus(other.y), z: self.z.plus(other.z) }
    }

    /// `self - other`, component by component.
    pub fn minus(&self, other: &Vec3<T>) -> (out: Vec3<T>)
        ensures
            out == difference3(*self, *other),
    {
        Vec3 { x: self.x.minus(other.x), y: self.y.minus(other.y), z: self.z.minus(other.z) }
    }

    /// `-self`: each component negated.
    pub fn negated(&self) -> (out: Vec3<T>)
        ensures
            out == (Vec3 { x: self.x.negation(), y: self.y.negation(), z: self.z.negation() }),
    {
        Vec3 { x: self.x.negated(), y: self.y.negated(), z: self.z.negated() }
    }

    /// `self * s`: each component times the scalar, the scalar on the right.
    pub fn times(&self, s: T) -> (out: Vec3<T>)
        ensures
            out == (Vec3 { x: self.x.product(s), y: self.y.product(s), z: self.z.product(s) }),
    {
        Vec3 { x: self.x.times(s), y: self.y.times(s), z: self.z.times(s) }
    }

    /// `s * self`: the scalar times each component, the scalar on the left.
    pub fn scaled(&self, s: T) -> (out: Vec3<T>)
        ensures
            out == (Vec3 { x: s.product(self.x), y: s.product(self.y), z: s.product(self.z) }),
    {
        Vec3 { x: s.times(self.x), y: s.times(self.y), z: s.times(self.z) }
    }

    /// `self / s`: each component divided by the scalar.
    pub fn over(&self, s: T) -> (out: Vec3<T>)
        ensures
            out == quotient3(*self, s),
    {
        Vec3 { x: self.x.over(s), y: self.y.over(s), z: self.z.over(s) }
    }

    /// The product of two vectors, component by component.
    pub fn componentwise(&self, other: &Vec3<T>) -> (out: Vec3<T>)
        ensures
            out == (Vec3 {
                x: self.x.product(other.x),
                y: self.y.product(other.y),
                z: self.z.product(other.z),
            }),
    {
        Vec3 { x: self.x.times(other.x), y: self.y.times(other.y), z: self.z.times(other.z) }
    }

    /// The distance between two points: the absolute value of the
    /// magnitude of their difference.
    pub fn dist(&self, other: &Point3D<T>) -> (out: T)
        ensures
            out == magnitude3(difference3(*self, *other)).absolute(),
    {
        self.minus(other).mag().abs()
    }

    /// The distance between two points, squared: the absolute value of the
    /// squared magnitude of their difference.
    pub fn dist_sq(&self, other: &Point3D<T>) -> (out: T)
        ensures
            out == dot3(difference3(*self, *other), difference3(*self, *other)).absolute(),
    {
        self.minus(other).mag_sq().abs()
    }
}

impl<T: Number> Default for Vec3<T> {
    /// The zero vector.
    fn default() -> (out: Self)
        ensures
            out == (Vec3 { x: T::nought(), y: T::nought(), z: T::nought() }),
    {
        Vec3 { x: T::zero(), y: T::zero(), z: T::zero() }
    }
}

} // verus!
