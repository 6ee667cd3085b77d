//! Vectors in the plane.

use crate::number::Number;
use vstd::prelude::*;

verus! {

/// A vector with two components. A point in the plane is such a vector too.
#[derive(Clone, Copy, Debug, PartialEq, PartialOrd)]
pub struct Vec2<T> {
    /// X component.
    pub x: T,
    /// Y component.
    pub y: T,
}

/// A position in the plane.
pub type Point2D<T> = Vec2<T>;

/// The dot product: the products of the components, pair by pair, summed.
pub open spec fn dot2<T: Number>(p: Vec2<T>, q: Vec2<T>) -> T {
    p.x.product(q.x).sum(p.y.product(q.y))
}

/// The difference of two vectors, component by component.
pub open spec fn difference2<T: Number>(p: Vec2<T>, q: Vec2<T>) -> Vec2<T> {
    Vec2 { x: p.x.difference(q.x), y: p.y.difference(q.y) }
}

/// The vector with each component divided by `s`.
pub open spec fn quotient2<T: Number>(p: Vec2<T>, s: T) -> Vec2<T> {
    Vec2 { x: p.x.quotient(s), y: p.y.quotient(s) }
}

/// The magnitude: the square root of the dot product of the vector with itself.
pub open spec fn magnitude2<T: Number>(p: Vec2<T>) -> T {
    dot2(p, p).square_root()
}

impl<T: Number> Vec2<T> {
    /// The vector with the given components.
    pub fn new(x: T, y: T) -> (out: Self)
        ensures
            out == (Vec2 { x, y }),
    {
        Vec2 { x, y }
    }

    /// The magnitude (Euclidean length) of the vector.
    pub fn mag(&self) -> (out: T)
        ensures
            out == magnitude2(*self),
            out == dot2(*self, *self).square_root(),
    {
        self.x.times(self.x).plus(self.y.times(self.y)).sqrt()
    }

    /// The dot product of `self` and `other`.
    pub fn dot(&self, other: &Vec2<T>) -> (out: T)
        ensures
            out == dot2(*self, *other),
    {
        self.x.times(other.x).plus(self.y.times(other.y))
    }

    /// The cross product in the plane, which is a number and not a vector:
    /// `x * other.y - y * other.x`.
    pub fn cross(&self, other: &Vec2<T>) -> (out: T)
        ensures
            out == self.x.product(other.y).difference(self.y.product(other.x)),
    {
        self.x.times(other.y).minus(self.y.times(other.x))
    }

    /// Applies `f` to each component: once to `x`, then once to `y`.
    pub fn map<F: Fn(T) -> T>(&self, f: F) -> (out: Vec2<T>)
        requires
            call_requires(f, (self.x,)),
            call_requires(f, (self.y,)),
        ensures
            call_ensures(f, (self.x,), out.x),
            call_ensures(f, (self.y,), out.y),
    {
        let fx = f(self.x);
        let fy = f(self.y);
        Vec2 { x: fx, y: fy }
    }

    /// The vector divided by its magnitude, or `None` if the magnitude is zero.
    pub fn normalize(&self) -> (out: Option<Vec2<T>>)
        ensures
            out.is_none() <==> magnitude2(*self).is_zero(),
            out.is_some() ==> out.unwrap() == quotient2(*self, magnitude2(*self)),
    {
        let m = self.mag();
        if m.zero_valued() {
            return None;
        }
        Some(self.over(m))
    }

    /// The magnitude squared, which is the dot product of the vector with itself.
    pub fn mag_sq(&self) -> (out: T)
        ensures
            out == dot2(*self, *self),
    {
        self.x.times(self.x).plus(self.y.times(self.y))
    }

    /// `self + other`, component by component.
    pub fn plus(&self, other: &Vec2<T>) -> (out: Vec2<T>)
        ensures
            out == (Vec2 { x: self.x.sum(other.x), y: self.y.sum(other.y) }),
    {
        Vec2 { x: self.x.plus(other.x), y: self.y.plus(other.y) }
    }

    /// `self - other`, component by component.
    pub fn minus(&self, other: &Vec2<T>) -> (out: Vec2<T>)
        ensures
            out == difference2(*self, *other),
    {
        Vec2 { x: self.x.minus(other.x), y: self.y.minus(other.y) }
    }

    /// `-self`: each component negated.
    pub fn negated(&self) -> (out: Vec2<T>)
        ensures
            out == (Vec2 { x: self.x.negation(), y: self.y.negation() }),
    {
        Vec2 { x: self.x.negated(), y: self.y.negated() }
    }

    /// `self * s`: each component times the scalar, the scalar on the right.
    pub fn times(&self, s: T) -> (out: Vec2<T>)
        ensures
            out == (Vec2 { x: self.x.product(s), y: self.y.product(s) }),
    {
        Vec2 { x: self.x.times(s), y: self.y.times(s) }
    }

    /// `s * self`: the scalar times each component, the scalar on the left.
    pub fn scaled(&self, s: T) -> (out: Vec2<T>)
        ensures
            out == (Vec2 { x: s.product(self.x), y: s.product(self.y) }),
    {
        Vec2 { x: s.times(self.x), y: s.times(self.y) }
    }

    /// `self / s`: each component divided by the scalar.
    pub fn over(&self, s: T) -> (out: Vec2<T>)
        ensures
            out == quotient2(*self, s),
    {
        Vec2 { x: self.x.over(s), y: self.y.over(s) }
    }

    /// The product of two vectors, component by component.
    pub fn componentwise(&self, other: &Vec2<T>) -> (out: Vec2<T>)
        ensures
            out == (Vec2 { x: self.x.product(other.x), y: self.y.product(other.y) }),
    {
        Vec2 { x: self.x.times(other.x), y: self.y.times(other.y) }
    }

    /// The distance between two points: the absolute value of the
    /// magnitude of their difference.
    pub fn dist(&self, other: &Point2D<T>) -> (out: T)
        ensures
            out == magnitude2(difference2(*self, *other)).absolute(),
    {
        self.minus(other).mag().abs()
    }

    /// The distance between two points, squared: the absolute value of the
    /// squared magnitude of their difference.
    pub fn dist_sq(&self, other: &Point2D<T>) -> (out: T)
        ensures
            out == dot2(difference2(*self, *other), difference2(*self, *other)).absolute(),
    {
        self.minus(other).mag_sq().abs()
    }
}

} // verus!
