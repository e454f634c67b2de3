//! Element-wise conversion of the `tuple` crate's composites.

use vstd::prelude::*;
use core::ops::RangeInclusive;
use tuple::{T2, T3, T4};
use crate::cast::Cast;

verus! {

/// `tuple::T2`, declared with its public fields: `pub struct T2<A, B>(pub A, pub B)`.
#[verifier::external_type_specification]
#[verifier::reject_recursive_types(A)]
#[verifier::reject_recursive_types(B)]
pub struct ExT2<A, B>(T2<A, B>);

/// `tuple::T3`, declared with its public fields.
#[verifier::external_type_specification]
#[verifier::reject_recursive_types(A)]
#[verifier::reject_recursive_types(B)]
#[verifier::reject_recursive_types(C)]
pub struct ExT3<A, B, C>(T3<A, B, C>);

/// `tuple::T4`, declared with its public fields.
#[verifier::external_type_specification]
#[verifier::reject_recursive_types(A)]
#[verifier::reject_recursive_types(B)]
#[verifier::reject_recursive_types(C)]
#[verifier::reject_recursive_types(D)]
pub struct ExT4<A, B, C, D>(T4<A, B, C, D>);

/// A composite converts element by element: it succeeds only where every
/// element does, and saturates each element on its own.
impl<A, B, W, X> Cast<T2<W, X>> for T2<A, B> where A: Cast<W>, B: Cast<X> {
    open spec fn spec_cast(self) -> Option<T2<W, X>> {
        match (self.0.spec_cast(), self.1.spec_cast()) {
            (Some(a), Some(b)) => Some(T2(a, b)),
            _ => None,
        }
    }

    open spec fn spec_cast_clipped(self, start: T2<W, X>, end: T2<W, X>) -> Option<T2<W, X>> {
        match (self.0.spec_cast_clipped(start.0, end.0), self.1.spec_cast_clipped(start.1, end.1)) {
            (Some(a), Some(b)) => Some(T2(a, b)),
            _ => None,
        }
    }

    open spec fn spec_range_ok(start: T2<W, X>, end: T2<W, X>) -> bool {
        A::spec_range_ok(start.0, end.0)
            && B::spec_range_ok(start.1, end.1)
    }

    open spec fn spec_cast_clamped(self, start: T2<W, X>, end: T2<W, X>) -> T2<W, X> {
        T2(
            self.0.spec_cast_clamped(start.0, end.0),
            self.1.spec_cast_clamped(start.1, end.1),
        )
    }

    open spec fn spec_cast_clamping(self) -> T2<W, X> {
        T2(self.0.spec_cast_clamping(), self.1.spec_cast_clamping())
    }

    fn cast(self) -> (res: Option<T2<W, X>>) {
        let T2(s0, s1) = self;
        match s0.cast() {
            Some(a) => match s1.cast() {
                Some(b) => Some(T2(a, b)),
                None => None,
            },
            None => None,
        }
    }

    fn cast_clipped(self, r: RangeInclusive<T2<W, X>>) -> (res: Option<T2<W, X>>) {
        let (T2(l0, l1), T2(h0, h1)) = r.into_inner();
        let T2(s0, s1) = self;
        match s0.cast_clipped(RangeInclusive::new(l0, h0)) {
            Some(a) => match s1.cast_clipped(RangeInclusive::new(l1, h1)) {
                Some(b) => Some(T2(a, b)),
                None => None,
            },
            None => None,
        }
    }

    fn cast_clamped(self, r: RangeInclusive<T2<W, X>>) -> (res: T2<W, X>) {
        let (T2(l0, l1), T2(h0, h1)) = r.into_inner();
        let T2(s0, s1) = self;
        T2(
            s0.cast_clamped(RangeInclusive::new(l0, h0)),
            s1.cast_clamped(RangeInclusive::new(l1, h1)),
        )
    }

    fn cast_clamping(self) -> (res: T2<W, X>) {
        let T2(s0, s1) = self;
        T2(s0.cast_clamping(), s1.cast_clamping())
    }
}

/// A composite converts element by element: it succeeds only where every
/// element does, and saturates each element on its own.
impl<A, B, C, W, X, Y> Cast<T3<W, X, Y>> for T3<A, B, C> where A: Cast<W>, B: Cast<X>, C: Cast<Y> {
    open spec fn spec_cast(self) -> Option<T3<W, X, Y>> {
        match (self.0.spec_cast(), self.1.spec_cast(), self.2.spec_cast()) {
            (Some(a), Some(b), Some(c)) => Some(T3(a, b, c)),
            _ => None,
        }
    }

    open spec fn spec_cast_clipped(
        self,
        start: T3<W, X, Y>,
        end: T3<W, X, Y>,
    ) -> Option<T3<W, X, Y>> {
        match (
            self.0.spec_cast_clipped(start.0, end.0),
            self.1.spec_cast_clipped(start.1, end.1),
            self.2.spec_cast_clipped(start.2, end.2),
        ) {
            (Some(a), Some(b), Some(c)) => Some(T3(a, b, c)),
            _ => None,
        }
    }

    open spec fn spec_range_ok(start: T3<W, X, Y>, end: T3<W, X, Y>) -> bool {
        A::spec_range_ok(start.0, end.0)
            && B::spec_range_ok(start.1, end.1)
            && C::spec_range_ok(start.2, end.2)
    }

    open spec fn spec_cast_clamped(self, start: T3<W, X, Y>, end: T3<W, X, Y>) -> T3<W, X, Y> {
        T3(
            self.0.spec_cast_clamped(start.0, end.0),
            self.1.spec_cast_clamped(start.1, end.1),
            self.2.spec_cast_clamped(start.2, end.2),
        )
    }

    open spec fn spec_cast_clamping(self) -> T3<W, X, Y> {
        T3(self.0.spec_cast_clamping(), self.1.spec_cast_clamping(), self.2.spec_cast_clamping())
    }

    fn cast(self) -> (res: Option<T3<W, X, Y>>) {
        let T3(s0, s1, s2) = self;
        match s0.cast() {
            Some(a) => match s1.cast() {
                Some(b) => match s2.cast() {
                    Some(c) => Some(T3(a, b, c)),
                    None => None,
                },
                None => None,
            },
            None => None,
        }
    }

    fn cast_clipped(self, r: RangeInclusive<T3<W, X, Y>>) -> (res: Option<T3<W, X, Y>>) {
        let (T3(l0, l1, l2), T3(h0, h1, h2)) = r.into_inner();
        let T3(s0, s1, s2) = self;
        match s0.cast_clipped(RangeInclusive::new(l0, h0)) {
            Some(a) => match s1.cast_clipped(RangeInclusive::new(l1, h1)) {
                Some(b) => match s2.cast_clipped(RangeInclusive::new(l2, h2)) {
                    Some(c) => Some(T3(a, b, c)),
                    None => None,
                },
                None => None,
            },
            None => None,
        }
    }

    fn cast_clamped(self, r: RangeInclusive<T3<W, X, Y>>) -> (res: T3<W, X, Y>) {
        let (T3(l0, l1, l2), T3(h0, h1, h2)) = r.into_inner();
        let T3(s0, s1, s2) = self;
        T3(
            s0.cast_clamped(RangeInclusive::new(l0, h0)),
            s1.cast_clamped(RangeInclusive::new(l1, h1)),
            s2.cast_clamped(RangeInclusive::new(l2, h2)),
        )
    }

    fn cast_clamping(self) -> (res: T3<W, X, Y>) {
        let T3(s0, s1, s2) = self;
        T3(s0.cast_clamping(), s1.cast_clamping(), s2.cast_clamping())
    }
}

/// A composite converts element by element: it succeeds only where every
/// element does, and saturates each element on its own.
impl<A, B, C, D, W, X, Y, Z> Cast<T4<W, X, Y, Z>> for T4<A, B, C, D> where
    A: Cast<W>,
    B: Cast<X>,
    C: Cast<Y>,
    D: Cast<Z>,
 {
    open spec fn spec_cast(self) -> Option<T4<W, X, Y, Z>> {
        match (self.0.spec_cast(), self.1.spec_cast(), self.2.spec_cast(), self.3.spec_cast()) {
            (Some(a), Some(b), Some(c), Some(d)) => Some(T4(a, b, c, d)),
            _ => None,
        }
    }

    open spec fn spec_cast_clipped(
        self,
        start: T4<W, X, Y, Z>,
        end: T4<W, X, Y, Z>,
    ) -> Option<T4<W, X, Y, Z>> {
        match (
            self.0.spec_cast_clipped(start.0, end.0),
            self.1.spec_cast_clipped(start.1, end.1),
            self.2.spec_cast_clipped(start.2, end.2),
            self.3.spec_cast_clipped(start.3, end.3),
        ) {
            (Some(a), Some(b), Some(c), Some(d)) => Some(T4(a, b, c, d)),
            _ => None,
        }
    }

    open spec fn spec_range_ok(start: T4<W, X, Y, Z>, end: T4<W, X, Y, Z>) -> bool {
        A::spec_range_ok(start.0, end.0)
            && B::spec_range_ok(start.1, end.1)
            && C::spec_range_ok(start.2, end.2)
            && D::spec_range_ok(start.3, end.3)
    }

    open spec fn spec_cast_clamped(
        self,
        start: T4<W, X, Y, Z>,
        end: T4<W, X, Y, Z>,
    ) -> T4<W, X, Y, Z> {
        T4(
            self.0.spec_cast_clamped(start.0, end.0),
            self.1.spec_cast_clamped(start.1, end.1),
            self.2.spec_cast_clamped(start.2, end.2),
            self.3.spec_cast_clamped(start.3, end.3),
        )
    }

    open spec fn spec_cast_clamping(self) -> T4<W, X, Y, Z> {
        T4(
            self.0.spec_cast_clamping(),
            self.1.spec_cast_clamping(),
            self.2.spec_cast_clamping(),
            self.3.spec_cast_clamping(),
        )
    }

    fn cast(self) -> (res: Option<T4<W, X, Y, Z>>) {
        let T4(s0, s1, s2, s3) = self;
        match s0.cast() {
            Some(a) => match s1.cast() {
                Some(b) => match s2.cast() {
                    Some(c) => match s3.cast() {
                        Some(d) => Some(T4(a, b, c, d)),
                        None => None,
                    },
                    None => None,
                },
                None => None,
            },
            None => None,
        }
    }

    fn cast_clipped(self, r: RangeInclusive<T4<W, X, Y, Z>>) -> (res: Option<T4<W, X, Y, Z>>) {
        let (T4(l0, l1, l2, l3), T4(h0, h1, h2, h3)) = r.into_inner();
        let T4(s0, s1, s2, s3) = self;
        match s0.cast_clipped(RangeInclusive::new(l0, h0)) {
            Some(a) => match s1.cast_clipped(RangeInclusive::new(l1, h1)) {
                Some(b) => match s2.cast_clipped(RangeInclusive::new(l2, h2)) {
                    Some(c) => match s3.cast_clipped(RangeInclusive::new(l3, h3)) {
                        Some(d) => Some(T4(a, b, c, d)),
                        None => None,
                    },
                    None => None,
                },
                None => None,
            },
            None => None,
        }
    }

    fn cast_clamped(self, r: RangeInclusive<T4<W, X, Y, Z>>) -> (res: T4<W, X, Y, Z>) {
        let (T4(l0, l1, l2, l3), T4(h0, h1, h2, h3)) = r.into_inner();
        let T4(s0, s1, s2, s3) = self;
        T4(
            s0.cast_clamped(RangeInclusive::new(l0, h0)),
            s1.cast_clamped(RangeInclusive::new(l1, h1)),
            s2.cast_clamped(RangeInclusive::new(l2, h2)),
            s3.cast_clamped(RangeInclusive::new(l3, h3)),
        )
    }

    fn cast_clamping(self) -> (res: T4<W, X, Y, Z>) {
        let T4(s0, s1, s2, s3) = self;
        T4(s0.cast_clamping(), s1.cast_clamping(), s2.cast_clamping(), s3.cast_clamping())
    }
}

} // verus!
