use realnum::reals::Real;
use std::ops::{Add, Div, Mul, Sub};
use tuple::{T2, T3, T4};

/// A plain scalar backend, one lane of `f64`.
#[derive(Clone, Copy, Debug, PartialEq)]
struct S(f64);

impl Add for S {
    type Output = S;
    fn add(self, o: S) -> S {
        S(self.0 + o.0)
    }
}

impl Sub for S {
    type Output = S;
    fn sub(self, o: S) -> S {
        S(self.0 - o.0)
    }
}

impl Mul for S {
    type Output = S;
    fn mul(self, o: S) -> S {
        S(self.0 * o.0)
    }
}

impl Div for S {
    type Output = S;
    fn div(self, o: S) -> S {
        S(self.0 / o.0)
    }
}

impl Real for S {
    type Bool = bool;
    type Scalar = f64;

    fn values(self) -> Vec<f64> {
        vec![self.0]
    }
    fn splat(s: f64) -> S {
        S(s)
    }
    fn integer(v: i16) -> S {
        S(f64::from(v))
    }
    fn frac(nom: i16, denom: u16) -> S {
        S(f64::from(nom) / f64::from(denom))
    }
    fn inv(self) -> S {
        S(1.0 / self.0)
    }
    fn abs(self) -> S {
        S(self.0.abs())
    }
    fn sqrt(self) -> S {
        S(self.0.sqrt())
    }
    fn floor(self) -> S {
        S(self.0.floor())
    }
    fn ceil(self) -> S {
        S(self.0.ceil())
    }
    fn mul_add(self, b: S, c: S) -> S {
        S(self.0 * b.0 + c.0)
    }
    fn wrap(self, at: S, span: S) -> S {
        if self.0 > at.0 {
            S(self.0 - span.0)
        } else {
            self
        }
    }
    fn lt(self, rhs: S) -> bool {
        self.0 < rhs.0
    }
    fn le(self, rhs: S) -> bool {
        self.0 <= rhs.0
    }
    fn gt(self, rhs: S) -> bool {
        self.0 > rhs.0
    }
    fn ge(self, rhs: S) -> bool {
        self.0 >= rhs.0
    }
    fn eq(self, rhs: S) -> bool {
        self.0 == rhs.0
    }
    fn select(self, other: S, cond: bool) -> S {
        if cond {
            self
        } else {
            other
        }
    }
}

type V4 = T4<S, S, S, S>;

#[test]
fn four_lanes_compare_and_select() {
    let five = V4::splat(5.0);
    let three = V4::splat(3.0);
    let mask = five.gt(three);
    assert_eq!(mask, T4(true, true, true, true));
    let picked = five.select(V4::splat(1.0), mask);
    assert_eq!(picked, V4::splat(5.0));
    assert_eq!(picked.values(), vec![5.0, 5.0, 5.0, 5.0]);
}

#[test]
fn composite_wrap_subtracts_span_above_threshold() {
    let v = T3(S(1.0), S(5.0), S(-2.0));
    let w = v.wrap(T3::splat(3.0), T3::splat(10.0));
    assert_eq!(w, T3(S(1.0), S(-5.0), S(-2.0)));
}

#[test]
fn select_takes_lanes_by_mask() {
    let a = T4(S(1.0), S(2.0), S(3.0), S(4.0));
    let b = T4(S(-1.0), S(-2.0), S(-3.0), S(-4.0));
    let r = a.select(b, T4(true, false, false, true));
    assert_eq!(r, T4(S(1.0), S(-2.0), S(-3.0), S(4.0)));
}

#[test]
fn select_on_nested_composite() {
    let a = T2(T2(S(1.0), S(2.0)), T2(S(3.0), S(4.0)));
    let b = T2(T2(S(5.0), S(6.0)), T2(S(7.0), S(8.0)));
    let r = a.select(b, T2(T2(false, true), T2(true, false)));
    assert_eq!(r.values(), vec![5.0, 2.0, 3.0, 8.0]);
}

#[test]
fn values_concatenate_in_element_order() {
    let v = T3(T2(S(1.0), S(2.0)), T2(S(3.0), S(4.0)), T2(S(5.0), S(6.0)));
    assert_eq!(v.values(), vec![1.0, 2.0, 3.0, 4.0, 5.0, 6.0]);
    assert_eq!(v.values(), v.values());
}

#[test]
fn splat_fills_every_lane() {
    let v = T2(T3(S(0.0), S(0.0), S(0.0)), T3(S(0.0), S(0.0), S(0.0)));
    let s = <T2<T3<S, S, S>, T3<S, S, S>>>::splat(2.5);
    assert_eq!(s.values(), vec![2.5; 6]);
    assert_eq!(v.values(), vec![0.0; 6]);
}

#[test]
fn clamp_keeps_lanes_in_bounds() {
    let a = T3(S(-1.0), S(0.5), S(7.0));
    let r = a.clamp(T3::splat(0.0), T3::splat(1.0));
    assert_eq!(r, T3(S(0.0), S(0.5), S(1.0)));
}

#[test]
fn clamp_leaves_inner_lanes_and_uses_per_lane_bounds() {
    let a = T4(S(2.0), S(-3.0), S(10.0), S(4.0));
    let lo = T4(S(1.0), S(-5.0), S(0.0), S(4.0));
    let hi = T4(S(3.0), S(-4.0), S(9.0), S(4.0));
    let r = a.clamp(lo, hi);
    assert_eq!(r, T4(S(2.0), S(-4.0), S(9.0), S(4.0)));
}

#[test]
fn min_and_max_per_lane() {
    let a = T3(S(1.0), S(5.0), S(-2.0));
    let b = T3(S(2.0), S(4.0), S(-2.0));
    assert_eq!(a.max(b), T3(S(2.0), S(5.0), S(-2.0)));
    assert_eq!(a.min(b), T3(S(1.0), S(4.0), S(-2.0)));
}

#[test]
fn comparisons_per_lane() {
    let a = T3(S(1.0), S(5.0), S(-2.0));
    let b = T3(S(2.0), S(5.0), S(-3.0));
    assert_eq!(a.lt(b), T3(true, false, false));
    assert_eq!(a.le(b), T3(true, true, false));
    assert_eq!(a.gt(b), T3(false, false, true));
    assert_eq!(a.ge(b), T3(false, true, true));
    assert_eq!(a.eq(b), T3(false, true, false));
}

#[test]
fn constructors_broadcast_literals() {
    assert_eq!(T2::<S, S>::integer(-3), T2(S(-3.0), S(-3.0)));
    assert_eq!(T3::<S, S, S>::frac(1, 4), T3(S(0.25), S(0.25), S(0.25)));
}

#[test]
fn unary_operations_per_lane() {
    let a = T4(S(-1.5), S(2.25), S(4.0), S(-0.5));
    assert_eq!(a.abs(), T4(S(1.5), S(2.25), S(4.0), S(0.5)));
    assert_eq!(a.floor(), T4(S(-2.0), S(2.0), S(4.0), S(-1.0)));
    assert_eq!(a.ceil(), T4(S(-1.0), S(3.0), S(4.0), S(-0.0)));
    assert_eq!(a.inv(), T4(S(1.0 / -1.5), S(1.0 / 2.25), S(0.25), S(-2.0)));
    assert_eq!(T2(S(9.0), S(16.0)).sqrt(), T2(S(3.0), S(4.0)));
}

#[test]
fn mul_add_per_lane() {
    let a = T2(S(2.0), S(3.0));
    let b = T2(S(4.0), S(-1.0));
    let c = T2(S(1.0), S(0.5));
    assert_eq!(a.mul_add(b, c), T2(S(9.0), S(-2.5)));
}

#[test]
fn arithmetic_operators_act_per_element() {
    let a = T2(S(2.0), S(3.0));
    let b = T2(S(4.0), S(-1.0));
    assert_eq!(a + b, T2(S(6.0), S(2.0)));
    assert_eq!(a * b, T2(S(8.0), S(-3.0)));
}
