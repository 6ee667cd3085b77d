use lars::{Number, Point2D, Point3D, Vec2, Vec3};
use std::cell::RefCell;

#[derive(Clone, Copy, Debug, PartialEq, PartialOrd)]
struct Real(f64);

impl Number for Real {
    fn sum(self, other: Self) -> Self {
        Real(self.0 + other.0)
    }
    fn difference(self, other: Self) -> Self {
        Real(self.0 - other.0)
    }
    fn product(self, other: Self) -> Self {
        Real(self.0 * other.0)
    }
    fn quotient(self, other: Self) -> Self {
        Real(self.0 / other.0)
    }
    fn negation(self) -> Self {
        Real(-self.0)
    }
    fn square_root(self) -> Self {
        Real(self.0.sqrt())
    }
    fn absolute(self) -> Self {
        Real(self.0.abs())
    }
    fn unit() -> Self {
        Real(1.0)
    }
    fn nought() -> Self {
        Real(0.0)
    }
    fn is_zero(self) -> bool {
        self.0 == 0.0
    }
    fn is_below(self, bound: Self) -> bool {
        self.0 < bound.0
    }
    fn plus(self, other: Self) -> Self {
        self.sum(other)
    }
    fn minus(self, other: Self) -> Self {
        self.difference(other)
    }
    fn times(self, other: Self) -> Self {
        self.product(other)
    }
    fn over(self, other: Self) -> Self {
        self.quotient(other)
    }
    fn negated(self) -> Self {
        self.negation()
    }
    fn sqrt(self) -> Self {
        self.square_root()
    }
    fn abs(self) -> Self {
        self.absolute()
    }
    fn one() -> Self {
        Self::unit()
    }
    fn zero() -> Self {
        Self::nought()
    }
    fn zero_valued(self) -> bool {
        self.is_zero()
    }
    fn below(self, bound: Self) -> bool {
        self.is_below(bound)
    }
}

fn v2(x: f64, y: f64) -> Vec2<Real> {
    Vec2::new(Real(x), Real(y))
}

fn v3(x: f64, y: f64, z: f64) -> Vec3<Real> {
    Vec3::new(Real(x), Real(y), Real(z))
}

#[test]
fn vector2_test_mag() {
    let v = v2(3.0, 4.0);
    assert_eq!(v.mag().0, 5.0);
}

#[test]
fn vector2_test_mag_sq() {
    let v = v2(3.0, 4.0);
    assert_eq!(v.mag_sq().0, 25.0);
}

#[test]
fn vector2_test_dist() {
    let a: Point2D<Real> = v2(1.0, 2.0);
    let b: Point2D<Real> = v2(1.0, 0.0);
    assert_eq!(a.dist(&b).0, 2.0);
}

#[test]
fn vector2_test_dist_sq() {
    let a: Point2D<Real> = v2(1.0, 2.0);
    let b: Point2D<Real> = v2(1.0, 0.0);
    assert_eq!(a.dist_sq(&b).0, 4.0);
}

#[test]
fn test_dot() {
    let a = v2(1.0, 2.0);
    let b = v2(3.0, 4.0);
    assert_eq!(a.dot(&b).0, 11.0);
}

#[test]
fn test_cross() {
    let a = v2(1.0, 0.0);
    let b = v2(0.0, 1.0);
    assert_eq!(a.cross(&b).0, 1.0);
}

#[test]
fn vector2_test_normalize() {
    let v = v2(3.0, 4.0);
    let n = v.normalize().unwrap();
    assert!((n.mag().0 - 1.0).abs() < 1e-10);
}

#[test]
fn vector2_test_scalar_mul() {
    let v = v2(1.0, 2.0);
    assert_eq!(v.scaled(Real(2.0)), v2(2.0, 4.0));
}

#[test]
fn vector2_test_component_mul() {
    let a = v2(2.0, 3.0);
    let b = v2(4.0, 5.0);
    assert_eq!(a.componentwise(&b), v2(8.0, 15.0));
}

#[test]
fn vector3_test_mag() {
    let v = v3(1.0, 2.0, 2.0);
    assert_eq!(v.mag().0, 3.0);
}

#[test]
fn vector3_test_mag_sq() {
    let v = v3(1.0, 2.0, 2.0);
    assert_eq!(v.mag_sq().0, 9.0);
}

#[test]
fn vector3_test_dist() {
    let a = v3(1.0, 2.0, 3.0);
    let b = v3(1.0, 0.0, 3.0);
    assert_eq!(a.dist(&b).0, 2.0);
}

#[test]
fn vector3_test_dist_sq() {
    let a: Point3D<Real> = v3(1.0, 2.0, 3.0);
    let b: Point3D<Real> = v3(1.0, 0.0, 3.0);
    assert_eq!(a.dist_sq(&b).0, 4.0);
}

#[test]
fn test_dot_product() {
    let a: Point3D<Real> = v3(1.0, 2.0, 3.0);
    let b: Point3D<Real> = v3(4.0, -5.0, 6.0);
    assert_eq!(a.dot(&b).0, 12.0);
}

#[test]
fn test_cross_product() {
    let a = v3(1.0, 0.0, 0.0);
    let b = v3(0.0, 1.0, 0.0);
    assert_eq!(a.cross(&b), v3(0.0, 0.0, 1.0));
}

#[test]
fn vector3_test_normalize() {
    let v = v3(3.0, 4.0, 0.0);
    let n = v.normalize().unwrap();
    assert!((n.mag().0 - 1.0).abs() < 1e-10);
}

#[test]
fn vector3_test_scalar_mul() {
    let v = v3(1.0, 2.0, 3.0);
    assert_eq!(v.scaled(Real(2.0)), v3(2.0, 4.0, 6.0));
}

#[test]
fn vector3_test_component_mul() {
    let a = v3(2.0, 3.0, 4.0);
    let b = v3(1.0, 2.0, 3.0);
    assert_eq!(a.componentwise(&b), v3(2.0, 6.0, 12.0));
}

#[test]
fn test_default() {
    let v: Vec3<Real> = Vec3::default();
    assert_eq!(v, v3(0.0, 0.0, 0.0));
}

#[test]
fn vector2_normalize_refuses_zero_magnitude() {
    assert_eq!(v2(0.0, 0.0).normalize(), None);
    assert_eq!(v2(-0.0, 0.0).normalize(), None);
    assert_eq!(v2(3.0, 0.0).normalize(), Some(v2(1.0, 0.0)));
}

#[test]
fn vector3_normalize_refuses_zero_magnitude() {
    assert_eq!(v3(0.0, 0.0, 0.0).normalize(), None);
    assert_eq!(v3(3.0, 0.0, 0.0).normalize(), Some(v3(1.0, 0.0, 0.0)));
    assert_eq!(v3(0.0, 0.0, -2.0).normalize(), Some(v3(0.0, 0.0, -1.0)));
}

#[test]
fn normalize_divides_by_the_magnitude() {
    assert_eq!(v2(3.0, 4.0).normalize(), Some(v2(3.0 / 5.0, 4.0 / 5.0)));
    assert_eq!(v3(1.0, 2.0, 2.0).normalize(), Some(v3(1.0 / 3.0, 2.0 / 3.0, 2.0 / 3.0)));
}

#[test]
fn squared_magnitude_is_the_dot_product_with_itself() {
    let v = v2(0.1, -7.25);
    assert_eq!(v.mag_sq(), v.dot(&v));
    assert_eq!(v.mag().0, v.mag_sq().0.sqrt());
    let w = v3(0.1, -7.25, 1e-3);
    assert_eq!(w.mag_sq(), w.dot(&w));
    assert_eq!(w.mag().0, w.mag_sq().0.sqrt());
}

#[test]
fn scalar_on_either_side_of_a_vector() {
    let v = v2(1.5, -2.0);
    assert_eq!(v.scaled(Real(3.0)), v.times(Real(3.0)));
    assert_eq!(v.times(Real(3.0)), v2(4.5, -6.0));
    let w = v3(1.5, -2.0, 0.25);
    assert_eq!(w.scaled(Real(3.0)), w.times(Real(3.0)));
    assert_eq!(w.times(Real(3.0)), v3(4.5, -6.0, 0.75));
}

#[test]
fn vector2_sum_difference_negation_quotient() {
    let a = v2(1.0, 2.0);
    let b = v2(0.5, -4.0);
    assert_eq!(a.plus(&b), v2(1.5, -2.0));
    assert_eq!(a.minus(&b), v2(0.5, 6.0));
    assert_eq!(a.negated(), v2(-1.0, -2.0));
    assert_eq!(a.over(Real(4.0)), v2(0.25, 0.5));
}

#[test]
fn vector3_sum_difference_negation_quotient() {
    let a = v3(1.0, 2.0, 3.0);
    let b = v3(0.5, -4.0, 1.0);
    assert_eq!(a.plus(&b), v3(1.5, -2.0, 4.0));
    assert_eq!(a.minus(&b), v3(0.5, 6.0, 2.0));
    assert_eq!(a.negated(), v3(-1.0, -2.0, -3.0));
    assert_eq!(a.over(Real(4.0)), v3(0.25, 0.5, 0.75));
}

#[test]
fn division_by_zero_gives_infinities_and_no_error() {
    let q = v2(1.0, -1.0).over(Real(0.0));
    assert_eq!(q, v2(f64::INFINITY, f64::NEG_INFINITY));
    let r = v3(0.0, 1.0, -1.0).over(Real(0.0));
    assert!(r.x.0.is_nan());
    assert_eq!(r.y.0, f64::INFINITY);
    assert_eq!(r.z.0, f64::NEG_INFINITY);
}

#[test]
fn cross_product_in_the_plane_is_signed() {
    assert_eq!(v2(0.0, 1.0).cross(&v2(1.0, 0.0)).0, -1.0);
    assert_eq!(v2(2.0, 3.0).cross(&v2(4.0, 5.0)).0, -2.0);
}

#[test]
fn cross_product_in_space_follows_the_right_hand_rule() {
    assert_eq!(v3(0.0, 1.0, 0.0).cross(&v3(0.0, 0.0, 1.0)), v3(1.0, 0.0, 0.0));
    assert_eq!(v3(0.0, 0.0, 1.0).cross(&v3(1.0, 0.0, 0.0)), v3(0.0, 1.0, 0.0));
    assert_eq!(v3(0.0, 1.0, 0.0).cross(&v3(1.0, 0.0, 0.0)), v3(0.0, 0.0, -1.0));
    assert_eq!(v3(1.0, 2.0, 3.0).cross(&v3(4.0, 5.0, 6.0)), v3(-3.0, 6.0, -3.0));
}

#[test]
fn map_applies_the_function_once_to_each_component_in_order() {
    let seen = RefCell::new(Vec::new());
    let out = v2(1.0, 2.0).map(|t: Real| {
        seen.borrow_mut().push(t.0);
        Real(t.0 * t.0)
    });
    assert_eq!(out, v2(1.0, 4.0));
    assert_eq!(*seen.borrow(), vec![1.0, 2.0]);

    let seen = RefCell::new(Vec::new());
    let out = v3(1.0, 2.0, 3.0).map(|t: Real| {
        seen.borrow_mut().push(t.0);
        Real(t.0 * t.0)
    });
    assert_eq!(out, v3(1.0, 4.0, 9.0));
    assert_eq!(*seen.borrow(), vec![1.0, 2.0, 3.0]);
}

#[test]
fn distance_is_never_negative() {
    assert_eq!(v2(0.0, 0.0).dist(&v2(3.0, 4.0)).0, 5.0);
    assert_eq!(v2(3.0, 4.0).dist(&v2(0.0, 0.0)).0, 5.0);
    assert_eq!(v3(1.0, 2.0, 2.0).dist_sq(&v3(0.0, 0.0, 0.0)).0, 9.0);
    assert_eq!(v3(0.0, 0.0, 0.0).dist(&v3(1.0, 2.0, 2.0)).0, 3.0);
}
