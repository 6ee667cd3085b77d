//! 2x2 matrices.

use crate::number::Number;
use crate::vector2::Vec2;
use vstd::prelude::*;

verus! {

/// A 2x2 matrix, row by row:
///
/// ```text
/// | a  b |
/// | c  d |
/// ```
#[derive(Clone, Copy, Debug, PartialEq, PartialOrd)]
pub struct Mat2<T> {
    /// Top-left entry.
    pub a: T,
    /// Top-right entry.
    pub b: T,
    /// Bottom-left entry.
    pub c: T,
    /// Bottom-right entry.
    pub d: T,
}

/// The determinant, `a*d - b*c`.
pub open spec fn determinant2<T: Number>(m: Mat2<T>) -> T {
    m.a.product(m.d).difference(m.b.product(m.c))
}

/// The matrix with every entry multiplied by `s`, the scalar on the right.
pub open spec fn scaled2<T: Number>(m: Mat2<T>, s: T) -> Mat2<T> {
    Mat2 { a: m.a.product(s), b: m.b.product(s), c: m.c.product(s), d: m.d.product(s) }
}

/// The inverse: the reciprocal of the determinant times
///
/// ```text
/// |  d  -b |
/// | -c   a |
/// ```
pub open spec fn inverse2<T: Number>(m: Mat2<T>) -> Mat2<T> {
    scaled2(
        Mat2 { a: m.d, b: m.b.negation(), c: m.c.negation(), d: m.a },
        T::unit().quotient(determinant2(m)),
    )
}

/// The matrix product, rows of `s` by columns of `r`.
pub open spec fn product2<T: Number>(s: Mat2<T>, r: Mat2<T>) -> Mat2<T> {
    Mat2 {
        a: s.a.product(r.a).sum(s.b.product(r.c)),
        b: s.a.product(r.b).sum(s.b.product(r.d)),
        c: s.c.product(r.a).sum(s.d.product(r.c)),
        d: s.c.product(r.b).sum(s.d.product(r.d)),
    }
}

impl<T: Number> Mat2<T> {
    /// The matrix with the given entries, row by row.
    pub fn new(a: T, b: T, c: T, d: T) -> (out: Self)
        ensures
            out == (Mat2 { a, b, c, d }),
    {
        Mat2 { a, b, c, d }
    }

    /// The determinant.
    pub fn determinant(&self) -> (out: T)
        ensures
            out == determinant2(*self),
    {
        self.a.times(self.d).minus(self.b.times(self.c))
    }

    /// The inverse, or `None` if the determinant is zero.
    ///
    /// A matrix is refused exactly when its determinant compares equal to
    /// zero; there is no band of tolerance around it.
    pub fn inverse(&self) -> (out: Option<Mat2<T>>)
        ensures
            out.is_none() <==> determinant2(*self).is_zero(),
            out.is_some() ==> out.unwrap() == inverse2(*self),
    {
        let det = self.determinant();
        if det.zero_valued() {
            return None;
        }
        let rec_det = T::one().over(det);
        let turned = Mat2 { a: self.d, b: self.b.negated(), c: self.c.negated(), d: self.a };
        Some(turned.scaled(rec_det))
    }

    /// `self + other`, entry by entry.
    pub fn plus(&self, other: &Mat2<T>) -> (out: Mat2<T>)
        ensures
            out == (Mat2 {
                a: self.a.sum(other.a),
                b: self.b.sum(other.b),
                c: self.c.sum(other.c),
                d: self.d.sum(other.d),
            }),
    {
        Mat2 {
            a: self.a.plus(other.a),
            b: self.b.plus(other.b),
            c: self.c.plus(other.c),
            d: self.d.plus(other.d),
        }
    }

    /// `self - other`, entry by entry.
    pub fn minus(&self, other: &Mat2<T>) -> (out: Mat2<T>)
        ensures
            out == (Mat2 {
                a: self.a.difference(other.a),
                b: self.b.difference(other.b),
                c: self.c.difference(other.c),
                d: self.d.difference(other.d),
            }),
    {
        Mat2 {
            a: self.a.minus(other.a),
            b: self.b.minus(other.b),
            c: self.c.minus(other.c),
            d: self.d.minus(other.d),
        }
    }

    /// `self * s`: every entry times the scalar.
    pub fn times(&self, s: T) -> (out: Mat2<T>)
        ensures
            out == scaled2(*self, s),
    {
        Mat2 { a: self.a.times(s), b: self.b.times(s), c: self.c.times(s), d: self.d.times(s) }
    }

    /// `s * self`: every entry times the scalar. The scalar stands on the
    /// right of each entry here too, so this is `self * s` exactly.
    pub fn scaled(&self, s: T) -> (out: Mat2<T>)
        ensures
            out == scaled2(*self, s),
    {
        self.times(s)
    }

    /// `self * v`: `(a*x + b*y, c*x + d*y)`.
    pub fn mul_vec(&self, v: &Vec2<T>) -> (out: Vec2<T>)
        ensures
            out == (Vec2 {
                x: self.a.product(v.x).sum(self.b.product(v.y)),
                y: self.c.product(v.x).sum(self.d.product(v.y)),
            }),
    {
        let x = self.a.times(v.x).plus(self.b.times(v.y));
        let y = self.c.times(v.x).plus(self.d.times(v.y));
        Vec2 { x, y }
    }

    /// `self * m`: rows of `self` by columns of `m`. The order matters.
    pub fn mul_mat(&self, m: &Mat2<T>) -> (out: Mat2<T>)
        ensures
            out == product2(*self, *m),
    {
        let a = self.a.times(m.a).plus(self.b.times(m.c));
        let b = self.a.times(m.b).plus(self.b.times(m.d));
        let c = self.c.times(m.a).plus(self.d.times(m.c));
        let d = self.c.times(m.b).plus(self.d.times(m.d));
        Mat2 { a, b, c, d }
    }
}

} // verus!
