//! 3x3 matrices.

use crate::number::Number;
use crate::vector3::Vec3;
use vstd::prelude::*;

verus! {

/// A 3x3 matrix, row by row:
///
/// ```text
/// | a  b  c |
/// | d  e  f |
/// | g  h  i |
/// ```
///
/// There is no `==` on this type: two 3x3 matrices are compared up to a
/// tolerance, with [`Mat3::approx_eq`].
#[derive(Clone, Copy, Debug)]
pub struct Mat3<T> {
    /// First row, first column.
    pub a: T,
    /// First row, second column.
    pub b: T,
    /// First row, third column.
    pub c: T,
    /// Second row, first column.
    pub d: T,
    /// Second row, second column.
    pub e: T,
    /// Second row, third column.
    pub f: T,
    /// Third row, first column.
    pub g: T,
    /// Third row, second column.
    pub h: T,
    /// Third row, third column.
    pub i: T,
}

/// A 2x2 determinant written out: `p * q - r * s`.
pub open spec fn minor<T: Number>(p: T, q: T, r: T, s: T) -> T {
    p.product(q).difference(r.product(s))
}

/// A row times a column: `a * x + b * y + c * z`, summed from the left.
pub open spec fn row_by_column<T: Number>(a: T, b: T, c: T, x: T, y: T, z: T) -> T {
    a.product(x).sum(b.product(y)).sum(c.product(z))
}

/// The determinant, expanded along the first row:
/// `a(ei - fh) - b(di - fg) + c(dh - eg)`.
pub open spec fn determinant3<T: Number>(m: Mat3<T>) -> T {
    m.a.product(minor(m.e, m.i, m.f, m.h)).difference(
        m.b.product(minor(m.d, m.i, m.f, m.g)),
    ).sum(m.c.product(minor(m.d, m.h, m.e, m.g)))
}

/// The adjugate with each entry multiplied by `r`:
///
/// ```text
/// | ei - fh   ch - bi   bf - ce |
/// | fg - di   ai - cg   cd - af |  each times r
/// | dh - eg   bg - ah   ae - bd |
/// ```
pub open spec fn adjugate_times<T: Number>(m: Mat3<T>, r: T) -> Mat3<T> {
    Mat3 {
        a: minor(m.e, m.i, m.f, m.h).product(r),
        b: minor(m.c, m.h, m.b, m.i).product(r),
        c: minor(m.b, m.f, m.c, m.e).product(r),
        d: minor(m.f, m.g, m.d, m.i).product(r),
        e: minor(m.a, m.i, m.c, m.g).product(r),
        f: minor(m.c, m.d, m.a, m.f).product(r),
        g: minor(m.d, m.h, m.e, m.g).product(r),
        h: minor(m.b, m.g, m.a, m.h).product(r),
        i: minor(m.a, m.e, m.b, m.d).product(r),
    }
}

/// The inverse: the adjugate times the reciprocal of the determinant.
pub open spec fn inverse3<T: Number>(m: Mat3<T>) -> Mat3<T> {
    adjugate_times(m, T::unit().quotient(determinant3(m)))
}

/// The matrix product, rows of `s` by columns of `r`.
pub open spec fn product3<T: Number>(s: Mat3<T>, r: Mat3<T>) -> Mat3<T> {
    Mat3 {
        a: row_by_column(s.a, s.b, s.c, r.a, r.d, r.g),
        b: row_by_column(s.a, s.b, s.c, r.b, r.e, r.h),
        c: row_by_column(s.a, s.b, s.c, r.c, r.f, r.i),
        d: row_by_column(s.d, s.e, s.f, r.a, r.d, r.g),
        e: row_by_column(s.d, s.e, s.f, r.b, r.e, r.h),
        f: row_by_column(s.d, s.e, s.f, r.c, r.f, r.i),
        g: row_by_column(s.g, s.h, s.i, r.a, r.d, r.g),
        h: row_by_column(s.g, s.h, s.i, r.b, r.e, r.h),
        i: row_by_column(s.g, s.h, s.i, r.c, r.f, r.i),
    }
}

/// Whether `p` and `q` differ by less than `bound`: `|p - q| < bound`.
pub open spec fn close<T: Number>(p: T, q: T, bound: T) -> bool {
    p.difference(q).absolute().is_below(bound)
}

/// Whether all nine pairs of entries are close.
pub open spec fn all_close<T: Number>(x: Mat3<T>, y: Mat3<T>, bound: T) -> bool {
    &&& close(x.a, y.a, bound)
    &&& close(x.b, y.b, bound)
    &&& close(x.c, y.c, bound)
    &&& close(x.d, y.d, bound)
    &&& close(x.e, y.e, bound)
    &&& close(x.f, y.f, bound)
    &&& close(x.g, y.g, bound)
    &&& close(x.h, y.h, bound)
    &&& close(x.i, y.i, bound)
}

fn minor_of<T: Number>(p: T, q: T, r: T, s: T) -> (out: T)
    ensures
        out == minor(p, q, r, s),
{
    p.times(q).minus(r.times(s))
}

fn row_times_column<T: Number>(a: T, b: T, c: T, x: T, y: T, z: T) -> (out: T)
    ensures
        out == row_by_column(a, b, c, x, y, z),
{
    a.times(x).plus(b.times(y)).plus(c.times(z))
}

fn is_close<T: Number>(p: T, q: T, bound: T) -> (out: bool)
    ensures
        out == close(p, q, bound),
{
    p.minus(q).abs().below(bound)
}

impl<T: Number> Mat3<T> {
    /// The matrix with the given entries, row by row.
    pub fn new(a: T, b: T, c: T, d: T, e: T, f: T, g: T, h: T, i: T) -> (out: Self)
        ensures
            out == (Mat3 { a, b, c, d, e, f, g, h, i }),
    {
        Mat3 { a, b, c, d, e, f, g, h, i }
    }

    /// The determinant.
    pub fn determinant(&self) -> (out: T)
        ensures
            out == determinant3(*self),
    {
        let first = self.a.times(minor_of(self.e, self.i, self.f, self.h));
        let second = self.b.times(minor_of(self.d, self.i, self.f, self.g));
        let third = self.c.times(minor_of(self.d, self.h, self.e, self.g));
        first.minus(second).plus(third)
    }

    /// The inverse, or `None` if the determinant is zero.
    ///
    /// A matrix is refused exactly when its determinant compares equal to
    /// zero; there is no band of tolerance around it.
    pub fn inverse(&self) -> (out: Option<Mat3<T>>)
        ensures
            out.is_none() <==> determinant3(*self).is_zero(),
            out.is_some() ==> out.unwrap() == inverse3(*self),
    {
        let det = self.determinant();
        if det.zero_valued() {
            return None;
        }
        let inv_det = T::one().over(det);
        Some(
            Mat3 {
                a: minor_of(self.e, self.i, self.f, self.h).times(inv_det),
                b: minor_of(self.c, self.h, self.b, self.i).times(inv_det),
                c: minor_of(self.b, self.f, self.c, self.e).times(inv_det),
                d: minor_of(self.f, self.g, self.d, self.i).times(inv_det),
                e: minor_of(self.a, self.i, self.c, self.g).times(inv_det),
                f: minor_of(self.c, self.d, self.a, self.f).times(inv_det),
                g: minor_of(self.d, self.h, self.e, self.g).times(inv_det),
                h: minor_of(self.b, self.g, self.a, self.h).times(inv_det),
                i: minor_of(self.a, self.e, self.b, self.d).times(inv_det),
            },
        )
    }

    /// Equality up to a tolerance: every one of the nine pairs of entries
    /// differs by less than `tolerance`.
    pub fn approx_eq(&self, other: &Mat3<T>, tolerance: T) -> (out: bool)
        ensures
            out == all_close(*self, *other, tolerance),
    {
        is_close(self.a, other.a, tolerance) && is_close(self.b, other.b, tolerance) && is_close(
            self.c,
            other.c,
            tolerance,
        ) && is_close(self.d, other.d, tolerance) && is_close(self.e, other.e, tolerance)
            && is_close(self.f, other.f, tolerance) && is_close(self.g, other.g, tolerance)
            && is_close(self.h, other.h, tolerance) && is_close(self.i, other.i, tolerance)
    }

    /// `self + other`, entry by entry.
    pub fn plus(&self, other: &Mat3<T>) -> (out: Mat3<T>)
        ensures
            out == (Mat3 {
                a: self.a.sum(other.a),
                b: self.b.sum(other.b),
                c: self.c.sum(other.c),
                d: self.d.sum(other.d),
                e: self.e.sum(other.e),
                f: self.f.sum(other.f),
                g: self.g.sum(other.g),
                h: self.h.sum(other.h),
                i: self.i.sum(other.i),
            }),
    {
        Mat3 {
            a: self.a.plus(other.a),
            b: self.b.plus(other.b),
            c: self.c.plus(other.c),
            d: self.d.plus(other.d),
            e: self.e.plus(other.e),
            f: self.f.plus(other.f),
            g: self.g.plus(other.g),
            h: self.h.plus(other.h),
            i: self.i.plus(other.i),
        }
    }

    /// `self - other`, entry by entry.
    pub fn minus(&self, other: &Mat3<T>) -> (out: Mat3<T>)
        ensures
            out == (Mat3 {
                a: self.a.difference(other.a),
                b: self.b.difference(other.b),
                c: self.c.difference(other.c),
                d: self.d.difference(other.d),
                e: self.e.difference(other.e),
                f: self.f.difference(other.f),
                g: self.g.difference(other.g),
                h: self.h.difference(other.h),
                i: self.i.difference(other.i),
            }),
    {
        Mat3 {
            a: self.a.minus(other.a),
            b: self.b.minus(other.b),
            c: self.c.minus(other.c),
            d: self.d.minus(other.d),
            e: self.e.minus(other.e),
            f: self.f.minus(other.f),
            g: self.g.minus(other.g),
            h: self.h.minus(other.h),
            i: self.i.minus(other.i),
        }
    }

    /// `self / s`: every entry divided by the scalar.
    pub fn over(&self, s: T) -> (out: Mat3<T>)
        ensures
            out == (Mat3 {
                a: self.a.quotient(s),
                b: self.b.quotient(s),
                c: self.c.quotient(s),
                d: self.d.quotient(s),
                e: self.e.quotient(s),
                f: self.f.quotient(s),
                g: self.g.quotient(s),
                h: self.h.quotient(s),
                i: self.i.quotient(s),
            }),
    {
        Mat3 {
            a: self.a.over(s),
            b: self.b.over(s),
            c: self.c.over(s),
            d: self.d.over(s),
            e: self.e.over(s),
            f: self.f.over(s),
            g: self.g.over(s),
            h: self.h.over(s),
            i: self.i.over(s),
        }
    }

    /// `self * v`: each row of the matrix times the vector.
    pub fn mul_vec(&self, v: &Vec3<T>) -> (out: Vec3<T>)
        ensures
            out == (Vec3 {
                x: row_by_column(self.a, self.b, self.c, v.x, v.y, v.z),
                y: row_by_column(self.d, self.e, self.f, v.x, v.y, v.z),
                z: row_by_column(self.g, self.h, self.i, v.x, v.y, v.z),
            }),
    {
        Vec3 {
            x: row_times_column(self.a, self.b, self.c, v.x, v.y, v.z),
            y: row_times_column(self.d, self.e, self.f, v.x, v.y, v.z),
            z: row_times_column(self.g, self.h, self.i, v.x, v.y, v.z),
        }
    }

    /// `self * r`: rows of `self` by columns of `r`. The order matters.
    pub fn mul_mat(&self, r: &Mat3<T>) -> (out: Mat3<T>)
        ensures
            out == product3(*self, *r),
    {
        Mat3 {
            a: row_times_column(self.a, self.b, self.c, r.a, r.d, r.g),
            b: row_times_column(self.a, self.b, self.c, r.b, r.e, r.h),
            c: row_times_column(self.a, self.b, self.c, r.c, r.f, r.i),
            d: row_times_column(self.d, self.e, self.f, r.a, r.d, r.g),
            e: row_times_column(self.d, self.e, self.f, r.b, r.e, r.h),
            f: row_times_column(self.d, self.e, self.f, r.c, r.f, r.i),
            g: row_times_column(self.g, self.h, self.i, r.a, r.d, r.g),
            h: row_times_column(self.g, self.h, self.i, r.b, r.e, r.h),
            i: row_times_column(self.g, self.h, self.i, r.c, r.f, r.i),
        }
    }
}

} // verus!
