//! The lane-wise numeric abstraction.

use vstd::prelude::*;
use core::ops::{Add, Div, Mul, Sub};

verus! {

/// A numeric value made of a fixed number of lanes, each holding one scalar.
///
/// Every operation acts on each lane on its own: `lane(i)` is the scalar in
/// lane `i`, for `0 <= i < width()`, and a comparison yields a `Bool` of the
/// same shape whose lanes are `mask_lane(.., i)`. What an operation does to
/// one lane is named by the `lane_` functions.
///
/// The composites of this crate define all of these from their elements', and
/// prove their operations against them. A representation built on a scalar
/// primitive (floats, hardware vector registers) computes each lane with the
/// primitive's own operation; it may be written as plain Rust, giving only the
/// executable methods, which is why the model functions have unspecified
/// defaults. What is proved of a composite then holds relative to its
/// elements meeting the contracts below.
pub trait Real: Sized + Copy + Add<Output = Self> + Sub<Output = Self> + Mul<
    Output = Self,
> + Div<Output = Self> {
    type Bool;

    type Scalar: Copy;

    /// The number of lanes, fixed by the type.
    closed spec fn width() -> nat {
        arbitrary()
    }

    closed spec fn lane(self, i: int) -> Self::Scalar {
        arbitrary()
    }

    closed spec fn mask_lane(b: Self::Bool, i: int) -> bool {
        arbitrary()
    }

    closed spec fn lane_lt(x: Self::Scalar, y: Self::Scalar) -> bool {
        arbitrary()
    }

    closed spec fn lane_eq(x: Self::Scalar, y: Self::Scalar) -> bool {
        arbitrary()
    }

    closed spec fn lane_sub(x: Self::Scalar, y: Self::Scalar) -> Self::Scalar {
        arbitrary()
    }

    /// `x * y + z`, with one rounding or two.
    closed spec fn lane_mul_add(x: Self::Scalar, y: Self::Scalar, z: Self::Scalar) -> Self::Scalar {
        arbitrary()
    }

    closed spec fn lane_inv(x: Self::Scalar) -> Self::Scalar {
        arbitrary()
    }

    closed spec fn lane_abs(x: Self::Scalar) -> Self::Scalar {
        arbitrary()
    }

    closed spec fn lane_sqrt(x: Self::Scalar) -> Self::Scalar {
        arbitrary()
    }

    closed spec fn lane_floor(x: Self::Scalar) -> Self::Scalar {
        arbitrary()
    }

    closed spec fn lane_ceil(x: Self::Scalar) -> Self::Scalar {
        arbitrary()
    }

    closed spec fn lane_int(v: i16) -> Self::Scalar {
        arbitrary()
    }

    closed spec fn lane_frac(nom: i16, denom: u16) -> Self::Scalar {
        arbitrary()
    }

    /// The lanes, in order.
    fn values(self) -> (r: Vec<Self::Scalar>)
        ensures
            r@.len() == Self::width(),
            forall|i: int| 0 <= i < Self::width() ==> r@[i] == self.lane(i),
    ;

    /// Every lane set to `s`.
    fn splat(s: Self::Scalar) -> (r: Self)
        ensures
            forall|i: int| 0 <= i < Self::width() ==> #[trigger] r.lane(i) == s,
    ;

    /// Every lane set to the integer `v`.
    fn integer(v: i16) -> (r: Self)
        ensures
            forall|i: int| 0 <= i < Self::width() ==> #[trigger] r.lane(i) == Self::lane_int(v),
    ;

    /// Every lane set to the fraction `nom / denom`.
    fn frac(nom: i16, denom: u16) -> (r: Self)
        ensures
            forall|i: int|
                0 <= i < Self::width() ==> #[trigger] r.lane(i) == Self::lane_frac(nom, denom),
    ;

    /// `1 / self`.
    fn inv(self) -> (r: Self)
        ensures
            forall|i: int|
                0 <= i < Self::width() ==> #[trigger] r.lane(i) == Self::lane_inv(self.lane(i)),
    ;

    /// `|self|`.
    fn abs(self) -> (r: Self)
        ensures
            forall|i: int|
                0 <= i < Self::width() ==> #[trigger] r.lane(i) == Self::lane_abs(self.lane(i)),
    ;

    fn sqrt(self) -> (r: Self)
        ensures
            forall|i: int|
                0 <= i < Self::width() ==> #[trigger] r.lane(i) == Self::lane_sqrt(self.lane(i)),
    ;

    fn floor(self) -> (r: Self)
        ensures
            forall|i: int|
                0 <= i < Self::width() ==> #[trigger] r.lane(i) == Self::lane_floor(self.lane(i)),
    ;

    fn ceil(self) -> (r: Self)
        ensures
            forall|i: int|
                0 <= i < Self::width() ==> #[trigger] r.lane(i) == Self::lane_ceil(self.lane(i)),
    ;

    /// `self * b + c`.
    fn mul_add(self, b: Self, c: Self) -> (r: Self)
        ensures
            forall|i: int|
                0 <= i < Self::width() ==> #[trigger] r.lane(i) == Self::lane_mul_add(
                    self.lane(i),
                    b.lane(i),
                    c.lane(i),
                ),
    ;

    /// Where `self` exceeds `at`, subtract `span`.
    fn wrap(self, at: Self, span: Self) -> (r: Self)
        ensures
            forall|i: int|
                0 <= i < Self::width() ==> #[trigger] r.lane(i) == if Self::lane_lt(
                    at.lane(i),
                    self.lane(i),
                ) {
                    Self::lane_sub(self.lane(i), span.lane(i))
                } else {
                    self.lane(i)
                },
    ;

    fn lt(self, rhs: Self) -> (r: Self::Bool)
        ensures
            forall|i: int|
                0 <= i < Self::width() ==> #[trigger] Self::mask_lane(r, i) == Self::lane_lt(
                    self.lane(i),
                    rhs.lane(i),
                ),
    ;

    fn le(self, rhs: Self) -> (r: Self::Bool)
        ensures
            forall|i: int|
                0 <= i < Self::width() ==> #[trigger] Self::mask_lane(r, i) == (Self::lane_lt(
                    self.lane(i),
                    rhs.lane(i),
                ) || Self::lane_eq(self.lane(i), rhs.lane(i))),
    ;

    fn gt(self, rhs: Self) -> (r: Self::Bool)
        ensures
            forall|i: int|
                0 <= i < Self::width() ==> #[trigger] Self::mask_lane(r, i) == Self::lane_lt(
                    rhs.lane(i),
                    self.lane(i),
                ),
    ;

    fn ge(self, rhs: Self) -> (r: Self::Bool)
        ensures
            forall|i: int|
                0 <= i < Self::width() ==> #[trigger] Self::mask_lane(r, i) == (Self::lane_lt(
                    rhs.lane(i),
                    self.lane(i),
                ) || Self::lane_eq(self.lane(i), rhs.lane(i))),
    ;

    fn eq(self, rhs: Self) -> (r: Self::Bool)
        ensures
            forall|i: int|
                0 <= i < Self::width() ==> #[trigger] Self::mask_lane(r, i) == Self::lane_eq(
                    self.lane(i),
                    rhs.lane(i),
                ),
    ;

    /// Per lane: `self`'s lane where `cond` is true, otherwise `other`'s.
    fn select(self, other: Self, cond: Self::Bool) -> (r: Self)
        ensures
            forall|i: int|
                0 <= i < Self::width() ==> #[trigger] r.lane(i) == if Self::mask_lane(cond, i) {
                    self.lane(i)
                } else {
                    other.lane(i)
                },
    ;

    /// Per lane: `max` above it, `min` below it, else `self`; made of two
    /// selects, so it means the same on every representation.
    fn clamp(self, min: Self, max: Self) -> (r: Self)
        ensures
            forall|i: int|
                0 <= i < Self::width() ==> #[trigger] r.lane(i) == if Self::lane_lt(
                    max.lane(i),
                    self.lane(i),
                ) {
                    max.lane(i)
                } else if Self::lane_lt(self.lane(i), min.lane(i)) {
                    min.lane(i)
                } else {
                    self.lane(i)
                },
    {
        let clamped_low = min.select(self, self.lt(min));
        max.select(clamped_low, self.gt(max))
    }

    /// Per lane, the greater of the two.
    fn max(self, other: Self) -> (r: Self)
        ensures
            forall|i: int|
                0 <= i < Self::width() ==> #[trigger] r.lane(i) == if Self::lane_lt(
                    other.lane(i),
                    self.lane(i),
                ) {
                    self.lane(i)
                } else {
                    other.lane(i)
                },
    {
        self.select(other, self.gt(other))
    }

    /// Per lane, the lesser of the two.
    fn min(self, other: Self) -> (r: Self)
        ensures
            forall|i: int|
                0 <= i < Self::width() ==> #[trigger] r.lane(i) == if Self::lane_lt(
                    self.lane(i),
                    other.lane(i),
                ) {
                    self.lane(i)
                } else {
                    other.lane(i)
                },
    {
        self.select(other, self.lt(other))
    }
}

/// `x <= y` on one lane of `R`: less, or equal.
pub open spec fn lane_le<R: Real>(x: R::Scalar, y: R::Scalar) -> bool {
    R::lane_lt(x, y) || R::lane_eq(x, y)
}

/// One lane of `x.clamp(lo, hi)`, as `clamp` states it.
pub open spec fn clamp_lane<R: Real>(x: R::Scalar, lo: R::Scalar, hi: R::Scalar) -> R::Scalar {
    if R::lane_lt(hi, x) {
        hi
    } else if R::lane_lt(x, lo) {
        lo
    } else {
        x
    }
}

/// The lane comparisons of `R` order its scalars: `lane_lt` is asymmetric and
/// never holds of equal scalars, scalars that compare equal themselves, and
/// scalars that equal themselves always compare. Floats meet this; NaN is
/// the one float that does not equal itself.
pub open spec fn lane_order_total<R: Real>() -> bool {
    &&& forall|x: R::Scalar, y: R::Scalar|
        #[trigger] R::lane_lt(x, y) ==> !R::lane_lt(y, x) && !R::lane_eq(x, y) && !R::lane_eq(y, x)
    &&& forall|x: R::Scalar, y: R::Scalar|
        #[trigger] lane_le::<R>(x, y) ==> R::lane_eq(x, x) && R::lane_eq(y, y)
    &&& forall|x: R::Scalar, y: R::Scalar|
        R::lane_eq(x, x) && R::lane_eq(y, y) ==> #[trigger] lane_le::<R>(x, y) || R::lane_lt(y, x)
}

/// Clamping puts every lane within `[lo, hi]` where `lo <= hi` on that lane
/// and `a`'s lane is not NaN, and leaves a lane that already lies in
/// `[lo, hi]` as it was.
pub proof fn lemma_clamp_within<R: Real>(a: R, lo: R, hi: R)
    requires
        lane_order_total::<R>(),
        forall|i: int| 0 <= i < R::width() ==> lane_le::<R>(#[trigger] lo.lane(i), hi.lane(i)),
        forall|i: int| 0 <= i < R::width() ==> R::lane_eq(#[trigger] a.lane(i), a.lane(i)),
    ensures
        forall|i: int|
            0 <= i < R::width() ==> {
                let r = #[trigger] clamp_lane::<R>(a.lane(i), lo.lane(i), hi.lane(i));
                &&& lane_le::<R>(lo.lane(i), r)
                &&& lane_le::<R>(r, hi.lane(i))
                &&& (lane_le::<R>(lo.lane(i), a.lane(i)) && lane_le::<R>(a.lane(i), hi.lane(i))
                    ==> r == a.lane(i))
            },
{
    assert forall|i: int| 0 <= i < R::width() implies {
        let r = #[trigger] clamp_lane::<R>(a.lane(i), lo.lane(i), hi.lane(i));
        &&& lane_le::<R>(lo.lane(i), r)
        &&& lane_le::<R>(r, hi.lane(i))
        &&& (lane_le::<R>(lo.lane(i), a.lane(i)) && lane_le::<R>(a.lane(i), hi.lane(i)) ==> r
            == a.lane(i))
    } by {
        let x = a.lane(i);
        let l = lo.lane(i);
        let h = hi.lane(i);
        assert(lane_le::<R>(l, h));
        assert(R::lane_eq(x, x));
        assert(R::lane_eq(l, l) && R::lane_eq(h, h));
        assert(lane_le::<R>(l, l));
        assert(lane_le::<R>(h, h));
        assert(lane_le::<R>(l, x) || R::lane_lt(x, l));
        assert(lane_le::<R>(x, h) || R::lane_lt(h, x));
        if R::lane_lt(h, x) {
            assert(!lane_le::<R>(x, h));
        }
        if R::lane_lt(x, l) {
            assert(!lane_le::<R>(l, x));
        }
    }
}

} // verus!
