//! The `tuple` crate's composites of `Real` values are themselves `Real` values.

use vstd::prelude::*;
use tuple::{T2, T3, T4};
use crate::reals::{Real, lane_le, lane_order_total};

verus! {

/// A pair of `Real` values is a `Real` value whose lanes are the first
/// element's, then the second element's.
impl<T: Real> Real for T2<T, T> {
    type Bool = T2<T::Bool, T::Bool>;

    type Scalar = T::Scalar;

    open spec fn width() -> nat {
        2 * T::width()
    }

    open spec fn lane(self, i: int) -> T::Scalar {
        if i < T::width() {
            self.0.lane(i)
        } else {
            self.1.lane(i - T::width())
        }
    }

    open spec fn mask_lane(b: T2<T::Bool, T::Bool>, i: int) -> bool {
        if i < T::width() {
            T::mask_lane(b.0, i)
        } else {
            T::mask_lane(b.1, i - T::width())
        }
    }

    open spec fn lane_lt(x: T::Scalar, y: T::Scalar) -> bool {
        T::lane_lt(x, y)
    }

    open spec fn lane_eq(x: T::Scalar, y: T::Scalar) -> bool {
        T::lane_eq(x, y)
    }

    open spec fn lane_sub(x: T::Scalar, y: T::Scalar) -> T::Scalar {
        T::lane_sub(x, y)
    }

    open spec fn lane_mul_add(x: T::Scalar, y: T::Scalar, z: T::Scalar) -> T::Scalar {
        T::lane_mul_add(x, y, z)
    }

    open spec fn lane_inv(x: T::Scalar) -> T::Scalar {
        T::lane_inv(x)
    }

    open spec fn lane_abs(x: T::Scalar) -> T::Scalar {
        T::lane_abs(x)
    }

    open spec fn lane_sqrt(x: T::Scalar) -> T::Scalar {
        T::lane_sqrt(x)
    }

    open spec fn lane_floor(x: T::Scalar) -> T::Scalar {
        T::lane_floor(x)
    }

    open spec fn lane_ceil(x: T::Scalar) -> T::Scalar {
        T::lane_ceil(x)
    }

    open spec fn lane_int(v: i16) -> T::Scalar {
        T::lane_int(v)
    }

    open spec fn lane_frac(nom: i16, denom: u16) -> T::Scalar {
        T::lane_frac(nom, denom)
    }

    fn values(self) -> (r: Vec<T::Scalar>) {
        let mut r = self.0.values();
        let mut rest = self.1.values();
        r.append(&mut rest);
        r
    }

    fn splat(s: T::Scalar) -> (r: Self) {
        T2(T::splat(s), T::splat(s))
    }

    fn integer(v: i16) -> (r: Self) {
        T2(T::integer(v), T::integer(v))
    }

    fn frac(nom: i16, denom: u16) -> (r: Self) {
        T2(T::frac(nom, denom), T::frac(nom, denom))
    }

    fn inv(self) -> (r: Self) {
        T2(self.0.inv(), self.1.inv())
    }

    fn abs(self) -> (r: Self) {
        T2(self.0.abs(), self.1.abs())
    }

    fn sqrt(self) -> (r: Self) {
        T2(self.0.sqrt(), self.1.sqrt())
    }

    fn floor(self) -> (r: Self) {
        T2(self.0.floor(), self.1.floor())
    }

    fn ceil(self) -> (r: Self) {
        T2(self.0.ceil(), self.1.ceil())
    }

    fn mul_add(self, b: Self, c: Self) -> (r: Self) {
        T2(self.0.mul_add(b.0, c.0), self.1.mul_add(b.1, c.1))
    }

    fn wrap(self, at: Self, span: Self) -> (r: Self) {
        T2(self.0.wrap(at.0, span.0), self.1.wrap(at.1, span.1))
    }

    fn lt(self, rhs: Self) -> (r: T2<T::Bool, T::Bool>) {
        let r = T2(self.0.lt(rhs.0), self.1.lt(rhs.1));
        assert forall|i: int| 0 <= i < T::width() implies
            #[trigger] Self::mask_lane(r, i) == Self::lane_lt(self.lane(i), rhs.lane(i)) by {}
        assert forall|i: int| T::width() <= i < 2 * T::width() implies
            #[trigger] Self::mask_lane(r, i) == Self::lane_lt(self.lane(i), rhs.lane(i)) by {}
        r
    }

    fn le(self, rhs: Self) -> (r: T2<T::Bool, T::Bool>) {
        T2(self.0.le(rhs.0), self.1.le(rhs.1))
    }

    fn gt(self, rhs: Self) -> (r: T2<T::Bool, T::Bool>) {
        let r = T2(self.0.gt(rhs.0), self.1.gt(rhs.1));
        assert forall|i: int| 0 <= i < T::width() implies
            #[trigger] Self::mask_lane(r, i) == Self::lane_lt(rhs.lane(i), self.lane(i)) by {}
        assert forall|i: int| T::width() <= i < 2 * T::width() implies
            #[trigger] Self::mask_lane(r, i) == Self::lane_lt(rhs.lane(i), self.lane(i)) by {}
        r
    }

    fn ge(self, rhs: Self) -> (r: T2<T::Bool, T::Bool>) {
        T2(self.0.ge(rhs.0), self.1.ge(rhs.1))
    }

    fn eq(self, rhs: Self) -> (r: T2<T::Bool, T::Bool>) {
        T2(self.0.eq(rhs.0), self.1.eq(rhs.1))
    }

    fn select(self, other: Self, cond: T2<T::Bool, T::Bool>) -> (r: Self) {
        let T2(c0, c1) = cond;
        let r = T2(self.0.select(other.0, c0), self.1.select(other.1, c1));
        assert forall|i: int| 0 <= i < T::width() implies
            #[trigger] r.lane(i) == if Self::mask_lane(cond, i) {
                self.lane(i)
            } else {
                other.lane(i)
            } by {}
        assert forall|i: int| T::width() <= i < 2 * T::width() implies
            #[trigger] r.lane(i) == if Self::mask_lane(cond, i) {
                self.lane(i)
            } else {
                other.lane(i)
            } by {}
        r
    }
}

/// A triple of `Real` values is a `Real` value whose lanes are the first
/// element's, then the second's, then the third's.
impl<T: Real> Real for T3<T, T, T> {
    type Bool = T3<T::Bool, T::Bool, T::Bool>;

    type Scalar = T::Scalar;

    open spec fn width() -> nat {
        3 * T::width()
    }

    open spec fn lane(self, i: int) -> T::Scalar {
        if i < T::width() {
            self.0.lane(i)
        } else if i < 2 * T::width() {
            self.1.lane(i - T::width())
        } else {
            self.2.lane(i - 2 * T::width())
        }
    }

    open spec fn mask_lane(b: T3<T::Bool, T::Bool, T::Bool>, i: int) -> bool {
        if i < T::width() {
            T::mask_lane(b.0, i)
        } else if i < 2 * T::width() {
            T::mask_lane(b.1, i - T::width())
        } else {
            T::mask_lane(b.2, i - 2 * T::width())
        }
    }

    open spec fn lane_lt(x: T::Scalar, y: T::Scalar) -> bool {
        T::lane_lt(x, y)
    }

    open spec fn lane_eq(x: T::Scalar, y: T::Scalar) -> bool {
        T::lane_eq(x, y)
    }

    open spec fn lane_sub(x: T::Scalar, y: T::Scalar) -> T::Scalar {
        T::lane_sub(x, y)
    }

    open spec fn lane_mul_add(x: T::Scalar, y: T::Scalar, z: T::Scalar) -> T::Scalar {
        T::lane_mul_add(x, y, z)
    }

    open spec fn lane_inv(x: T::Scalar) -> T::Scalar {
        T::lane_inv(x)
    }

    open spec fn lane_abs(x: T::Scalar) -> T::Scalar {
        T::lane_abs(x)
    }

    open spec fn lane_sqrt(x: T::Scalar) -> T::Scalar {
        T::lane_sqrt(x)
    }

    open spec fn lane_floor(x: T::Scalar) -> T::Scalar {
        T::lane_floor(x)
    }

    open spec fn lane_ceil(x: T::Scalar) -> T::Scalar {
        T::lane_ceil(x)
    }

    open spec fn lane_int(v: i16) -> T::Scalar {
        T::lane_int(v)
    }

    open spec fn lane_frac(nom: i16, denom: u16) -> T::Scalar {
        T::lane_frac(nom, denom)
    }

    fn values(self) -> (r: Vec<T::Scalar>) {
        let mut r = self.0.values();
        let mut rest = self.1.values();
        r.append(&mut rest);
        let mut rest = self.2.values();
        r.append(&mut rest);
        r
    }

    fn splat(s: T::Scalar) -> (r: Self) {
        T3(T::splat(s), T::splat(s), T::splat(s))
    }

    fn integer(v: i16) -> (r: Self) {
        T3(T::integer(v), T::integer(v), T::integer(v))
    }

    fn frac(nom: i16, denom: u16) -> (r: Self) {
        T3(T::frac(nom, denom), T::frac(nom, denom), T::frac(nom, denom))
    }

    fn inv(self) -> (r: Self) {
        T3(self.0.inv(), self.1.inv(), self.2.inv())
    }

    fn abs(self) -> (r: Self) {
        T3(self.0.abs(), self.1.abs(), self.2.abs())
    }

    fn sqrt(self) -> (r: Self) {
        T3(self.0.sqrt(), self.1.sqrt(), self.2.sqrt())
    }

    fn floor(self) -> (r: Self) {
        T3(self.0.floor(), self.1.floor(), self.2.floor())
    }

    fn ceil(self) -> (r: Self) {
        T3(self.0.ceil(), self.1.ceil(), self.2.ceil())
    }

    fn mul_add(self, b: Self, c: Self) -> (r: Self) {
        T3(self.0.mul_add(b.0, c.0), self.1.mul_add(b.1, c.1), self.2.mul_add(b.2, c.2))
    }

    fn wrap(self, at: Self, span: Self) -> (r: Self) {
        T3(self.0.wrap(at.0, span.0), self.1.wrap(at.1, span.1), self.2.wrap(at.2, span.2))
    }

    fn lt(self, rhs: Self) -> (r: T3<T::Bool, T::Bool, T::Bool>) {
        let r = T3(self.0.lt(rhs.0), self.1.lt(rhs.1), self.2.lt(rhs.2));
        assert forall|i: int| 0 <= i < T::width() implies
            #[trigger] Self::mask_lane(r, i) == Self::lane_lt(self.lane(i), rhs.lane(i)) by {}
        assert forall|i: int| T::width() <= i < 2 * T::width() implies
            #[trigger] Self::mask_lane(r, i) == Self::lane_lt(self.lane(i), rhs.lane(i)) by {}
        assert forall|i: int| 2 * T::width() <= i < 3 * T::width() implies
            #[trigger] Self::mask_lane(r, i) == Self::lane_lt(self.lane(i), rhs.lane(i)) by {}
        r
    }

    fn le(self, rhs: Self) -> (r: T3<T::Bool, T::Bool, T::Bool>) {
        T3(self.0.le(rhs.0), self.1.le(rhs.1), self.2.le(rhs.2))
    }

    fn gt(self, rhs: Self) -> (r: T3<T::Bool, T::Bool, T::Bool>) {
        let r = T3(self.0.gt(rhs.0), self.1.gt(rhs.1), self.2.gt(rhs.2));
        assert forall|i: int| 0 <= i < T::width() implies
            #[trigger] Self::mask_lane(r, i) == Self::lane_lt(rhs.lane(i), self.lane(i)) by {}
        assert forall|i: int| T::width() <= i < 2 * T::width() implies
            #[trigger] Self::mask_lane(r, i) == Self::lane_lt(rhs.lane(i), self.lane(i)) by {}
        assert forall|i: int| 2 * T::width() <= i < 3 * T::width() implies
            #[trigger] Self::mask_lane(r, i) == Self::lane_lt(rhs.lane(i), self.lane(i)) by {}
        r
    }

    fn ge(self, rhs: Self) -> (r: T3<T::Bool, T::Bool, T::Bool>) {
        T3(self.0.ge(rhs.0), self.1.ge(rhs.1), self.2.ge(rhs.2))
    }

    fn eq(self, rhs: Self) -> (r: T3<T::Bool, T::Bool, T::Bool>) {
        T3(self.0.eq(rhs.0), self.1.eq(rhs.1), self.2.eq(rhs.2))
    }

    fn select(self, other: Self, cond: T3<T::Bool, T::Bool, T::Bool>) -> (r: Self) {
        let T3(c0, c1, c2) = cond;
        let r = T3(
            self.0.select(other.0, c0),
            self.1.select(other.1, c1),
            self.2.select(other.2, c2),
        );
        assert forall|i: int| 0 <= i < T::width() implies
            #[trigger] r.lane(i) == if Self::mask_lane(cond, i) {
                self.lane(i)
            } else {
                other.lane(i)
            } by {}
        assert forall|i: int| T::width() <= i < 2 * T::width() implies
            #[trigger] r.lane(i) == if Self::mask_lane(cond, i) {
                self.lane(i)
            } else {
                other.lane(i)
            } by {}
        assert forall|i: int| 2 * T::width() <= i < 3 * T::width() implies
            #[trigger] r.lane(i) == if Self::mask_lane(cond, i) {
                self.lane(i)
            } else {
                other.lane(i)
            } by {}
        r
    }
}

/// A quadruple of `Real` values is a `Real` value whose lanes are the first
/// element's, then the second's, the third's and the fourth's.
impl<T: Real> Real for T4<T, T, T, T> {
    type Bool = T4<T::Bool, T::Bool, T::Bool, T::Bool>;

    type Scalar = T::Scalar;

    open spec fn width() -> nat {
        4 * T::width()
    }

    open spec fn lane(self, i: int) -> T::Scalar {
        if i < T::width() {
            self.0.lane(i)
        } else if i < 2 * T::width() {
            self.1.lane(i - T::width())
        } else if i < 3 * T::width() {
            self.2.lane(i - 2 * T::width())
        } else {
            self.3.lane(i - 3 * T::width())
        }
    }

    open spec fn mask_lane(b: T4<T::Bool, T::Bool, T::Bool, T::Bool>, i: int) -> bool {
        if i < T::width() {
            T::mask_lane(b.0, i)
        } else if i < 2 * T::width() {
            T::mask_lane(b.1, i - T::width())
        } else if i < 3 * T::width() {
            T::mask_lane(b.2, i - 2 * T::width())
        } else {
            T::mask_lane(b.3, i - 3 * T::width())
        }
    }

    open spec fn lane_lt(x: T::Scalar, y: T::Scalar) -> bool {
        T::lane_lt(x, y)
    }

    open spec fn lane_eq(x: T::Scalar, y: T::Scalar) -> bool {
        T::lane_eq(x, y)
    }

    open spec fn lane_sub(x: T::Scalar, y: T::Scalar) -> T::Scalar {
        T::lane_sub(x, y)
    }

    open spec fn lane_mul_add(x: T::Scalar, y: T::Scalar, z: T::Scalar) -> T::Scalar {
        T::lane_mul_add(x, y, z)
    }

    open spec fn lane_inv(x: T::Scalar) -> T::Scalar {
        T::lane_inv(x)
    }

    open spec fn lane_abs(x: T::Scalar) -> T::Scalar {
        T::lane_abs(x)
    }

    open spec fn lane_sqrt(x: T::Scalar) -> T::Scalar {
        T::lane_sqrt(x)
    }

    open spec fn lane_floor(x: T::Scalar) -> T::Scalar {
        T::lane_floor(x)
    }

    open spec fn lane_ceil(x: T::Scalar) -> T::Scalar {
        T::lane_ceil(x)
    }

    open spec fn lane_int(v: i16) -> T::Scalar {
        T::lane_int(v)
    }

    open spec fn lane_frac(nom: i16, denom: u16) -> T::Scalar {
        T::lane_frac(nom, denom)
    }

    fn values(self) -> (r: Vec<T::Scalar>) {
        let mut r = self.0.values();
        let mut rest = self.1.values();
        r.append(&mut rest);
        let mut rest = self.2.values();
        r.append(&mut rest);
        let mut rest = self.3.values();
        r.append(&mut rest);
        r
    }

    fn splat(s: T::Scalar) -> (r: Self) {
        T4(T::splat(s), T::splat(s), T::splat(s), T::splat(s))
    }

    fn integer(v: i16) -> (r: Self) {
        T4(T::integer(v), T::integer(v), T::integer(v), T::integer(v))
    }

    fn frac(nom: i16, denom: u16) -> (r: Self) {
        T4(T::frac(nom, denom), T::frac(nom, denom), T::frac(nom, denom), T::frac(nom, denom))
    }

    fn inv(self) -> (r: Self) {
        T4(self.0.inv(), self.1.inv(), self.2.inv(), self.3.inv())
    }

    fn abs(self) -> (r: Self) {
        T4(self.0.abs(), self.1.abs(), self.2.abs(), self.3.abs())
    }

    fn sqrt(self) -> (r: Self) {
        T4(self.0.sqrt(), self.1.sqrt(), self.2.sqrt(), self.3.sqrt())
    }

    fn floor(self) -> (r: Self) {
        T4(self.0.floor(), self.1.floor(), self.2.floor(), self.3.floor())
    }

    fn ceil(self) -> (r: Self) {
        T4(self.0.ceil(), self.1.ceil(), self.2.ceil(), self.3.ceil())
    }

    fn mul_add(self, b: Self, c: Self) -> (r: Self) {
        T4(
            self.0.mul_add(b.0, c.0),
            self.1.mul_add(b.1, c.1),
            self.2.mul_add(b.2, c.2),
            self.3.mul_add(b.3, c.3),
        )
    }

    fn wrap(self, at: Self, span: Self) -> (r: Self) {
        T4(
            self.0.wrap(at.0, span.0),
            self.1.wrap(at.1, span.1),
            self.2.wrap(at.2, span.2),
            self.3.wrap(at.3, span.3),
        )
    }

    fn lt(self, rhs: Self) -> (r: T4<T::Bool, T::Bool, T::Bool, T::Bool>) {
        let r = T4(self.0.lt(rhs.0), self.1.lt(rhs.1), self.2.lt(rhs.2), self.3.lt(rhs.3));
        assert forall|i: int| 0 <= i < T::width() implies
            #[trigger] Self::mask_lane(r, i) == Self::lane_lt(self.lane(i), rhs.lane(i)) by {}
        assert forall|i: int| T::width() <= i < 2 * T::width() implies
            #[trigger] Self::mask_lane(r, i) == Self::lane_lt(self.lane(i), rhs.lane(i)) by {}
        assert forall|i: int| 2 * T::width() <= i < 3 * T::width() implies
            #[trigger] Self::mask_lane(r, i) == Self::lane_lt(self.lane(i), rhs.lane(i)) by {}
        assert forall|i: int| 3 * T::width() <= i < 4 * T::width() implies
            #[trigger] Self::mask_lane(r, i) == Self::lane_lt(self.lane(i), rhs.lane(i)) by {}
        r
    }

    fn le(self, rhs: Self) -> (r: T4<T::Bool, T::Bool, T::Bool, T::Bool>) {
        T4(self.0.le(rhs.0), self.1.le(rhs.1), self.2.le(rhs.2), self.3.le(rhs.3))
    }

    fn gt(self, rhs: Self) -> (r: T4<T::Bool, T::Bool, T::Bool, T::Bool>) {
        let r = T4(self.0.gt(rhs.0), self.1.gt(rhs.1), self.2.gt(rhs.2), self.3.gt(rhs.3));
        assert forall|i: int| 0 <= i < T::width() implies
            #[trigger] Self::mask_lane(r, i) == Self::lane_lt(rhs.lane(i), self.lane(i)) by {}
        assert forall|i: int| T::width() <= i < 2 * T::width() implies
            #[trigger] Self::mask_lane(r, i) == Self::lane_lt(rhs.lane(i), self.lane(i)) by {}
        assert forall|i: int| 2 * T::width() <= i < 3 * T::width() implies
            #[trigger] Self::mask_lane(r, i) == Self::lane_lt(rhs.lane(i), self.lane(i)) by {}
        assert forall|i: int| 3 * T::width() <= i < 4 * T::width() implies
            #[trigger] Self::mask_lane(r, i) == Self::lane_lt(rhs.lane(i), self.lane(i)) by {}
        r
    }

    fn ge(self, rhs: Self) -> (r: T4<T::Bool, T::Bool, T::Bool, T::Bool>) {
        T4(self.0.ge(rhs.0), self.1.ge(rhs.1), self.2.ge(rhs.2), self.3.ge(rhs.3))
    }

    fn eq(self, rhs: Self) -> (r: T4<T::Bool, T::Bool, T::Bool, T::Bool>) {
        T4(self.0.eq(rhs.0), self.1.eq(rhs.1), self.2.eq(rhs.2), self.3.eq(rhs.3))
    }

    fn select(self, other: Self, cond: T4<T::Bool, T::Bool, T::Bool, T::Bool>) -> (r: Self) {
        let T4(c0, c1, c2, c3) = cond;
        let r = T4(
            self.0.select(other.0, c0),
            self.1.select(other.1, c1),
            self.2.select(other.2, c2),
            self.3.select(other.3, c3),
        );
        assert forall|i: int| 0 <= i < T::width() implies
            #[trigger] r.lane(i) == if Self::mask_lane(cond, i) {
                self.lane(i)
            } else {
                other.lane(i)
            } by {}
        assert forall|i: int| T::width() <= i < 2 * T::width() implies
            #[trigger] r.lane(i) == if Self::mask_lane(cond, i) {
                self.lane(i)
            } else {
                other.lane(i)
            } by {}
        assert forall|i: int| 2 * T::width() <= i < 3 * T::width() implies
            #[trigger] r.lane(i) == if Self::mask_lane(cond, i) {
                self.lane(i)
            } else {
                other.lane(i)
            } by {}
        assert forall|i: int| 3 * T::width() <= i < 4 * T::width() implies
            #[trigger] r.lane(i) == if Self::mask_lane(cond, i) {
                self.lane(i)
            } else {
                other.lane(i)
            } by {}
        r
    }
}

/// Composites compare their lanes as their elements do, so an element type
/// whose lanes are ordered gives composites whose lanes are ordered.
pub proof fn lemma_order_lifts<T: Real>()
    requires
        lane_order_total::<T>(),
    ensures
        lane_order_total::<T2<T, T>>(),
        lane_order_total::<T3<T, T, T>>(),
        lane_order_total::<T4<T, T, T, T>>(),
{
    assert forall|x: T::Scalar, y: T::Scalar| #[trigger] <T2<T, T> as Real>::lane_lt(x, y) implies !<T2<T, T> as Real>::lane_lt(
        y,
        x,
    ) && !<T2<T, T> as Real>::lane_eq(x, y) && !<T2<T, T> as Real>::lane_eq(y, x) by {
        assert(T::lane_lt(x, y));
    }
    assert forall|x: T::Scalar, y: T::Scalar| #[trigger] lane_le::<T2<T, T>>(x, y) implies <T2<T, T> as Real>::lane_eq(
        x,
        x,
    ) && <T2<T, T> as Real>::lane_eq(y, y) by {
        assert(lane_le::<T>(x, y));
    }
    assert forall|x: T::Scalar, y: T::Scalar|
        <T2<T, T> as Real>::lane_eq(x, x) && <T2<T, T> as Real>::lane_eq(y, y) implies #[trigger] lane_le::<T2<T, T>>(x, y)
            || <T2<T, T> as Real>::lane_lt(y, x) by {
        assert(lane_le::<T>(x, y) || T::lane_lt(y, x));
    }
    assert forall|x: T::Scalar, y: T::Scalar| #[trigger] <T3<T, T, T> as Real>::lane_lt(x, y) implies !<T3<T, T, T> as Real>::lane_lt(
        y,
        x,
    ) && !<T3<T, T, T> as Real>::lane_eq(x, y) && !<T3<T, T, T> as Real>::lane_eq(y, x) by {
        assert(T::lane_lt(x, y));
    }
    assert forall|x: T::Scalar, y: T::Scalar| #[trigger] lane_le::<T3<T, T, T>>(x, y) implies <T3<T, T, T> as Real>::lane_eq(
        x,
        x,
    ) && <T3<T, T, T> as Real>::lane_eq(y, y) by {
        assert(lane_le::<T>(x, y));
    }
    assert forall|x: T::Scalar, y: T::Scalar|
        <T3<T, T, T> as Real>::lane_eq(x, x) && <T3<T, T, T> as Real>::lane_eq(y, y) implies #[trigger] lane_le::<T3<T, T, T>>(x, y)
            || <T3<T, T, T> as Real>::lane_lt(y, x) by {
        assert(lane_le::<T>(x, y) || T::lane_lt(y, x));
    }
    assert forall|x: T::Scalar, y: T::Scalar| #[trigger] <T4<T, T, T, T> as Real>::lane_lt(x, y) implies !<T4<T, T, T, T> as Real>::lane_lt(
        y,
        x,
    ) && !<T4<T, T, T, T> as Real>::lane_eq(x, y) && !<T4<T, T, T, T> as Real>::lane_eq(y, x) by {
        assert(T::lane_lt(x, y));
    }
    assert forall|x: T::Scalar, y: T::Scalar| #[trigger] lane_le::<T4<T, T, T, T>>(x, y) implies <T4<T, T, T, T> as Real>::lane_eq(
        x,
        x,
    ) && <T4<T, T, T, T> as Real>::lane_eq(y, y) by {
        assert(lane_le::<T>(x, y));
    }
    assert forall|x: T::Scalar, y: T::Scalar|
        <T4<T, T, T, T> as Real>::lane_eq(x, x) && <T4<T, T, T, T> as Real>::lane_eq(y, y) implies #[trigger] lane_le::<T4<T, T, T, T>>(x, y)
            || <T4<T, T, T, T> as Real>::lane_lt(y, x) by {
        assert(lane_le::<T>(x, y) || T::lane_lt(y, x));
    }
}

} // verus!
