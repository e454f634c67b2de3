//! The conversion policies, and their laws on integer domains.

use vstd::prelude::*;
use core::ops::RangeInclusive;
use crate::domain::Bounded;

verus! {

/// Relies on `RangeInclusive::into_inner`: it hands back the range's start and
/// end as they were given.
pub assume_specification<Idx>[ RangeInclusive::<Idx>::into_inner ](
    r: RangeInclusive<Idx>,
) -> (res: (Idx, Idx))
    ensures
        res.0 == r@.start,
        res.1 == r@.end,
;

/// `v` saturated into the inclusive interval `[lo, hi]`.
pub open spec fn clamp_int(v: int, lo: int, hi: int) -> int {
    if v < lo {
        lo
    } else if v > hi {
        hi
    } else {
        v
    }
}

/// Whether every value of `S` is a value of `T`: the conversion from `S` to `T`
/// widens, and needs no check of the value. Both sides are constants of the
/// two types, so the test folds away once the types are known.
pub fn widens<S: Bounded, T: Bounded>() -> (r: bool)
    ensures
        r == (T::lo() <= S::lo() && S::hi() <= T::hi()),
{
    T::min_wide().le(&S::min_wide()) && S::max_wide().le(&T::max_wide())
}

/// Conversion of `Self` into the domain `O` under four policies.
///
/// What each policy returns is given by the matching `spec_` function of the
/// impl: exactly, for every input.
pub trait Cast<O>: Sized {
    /// `self` as a value of `O`, if `O` can represent it.
    spec fn spec_cast(self) -> Option<O>;

    /// `self` as a value of `O`, if it lies within `[start, end]`.
    spec fn spec_cast_clipped(self, start: O, end: O) -> Option<O>;

    /// Whether `[start, end]` is a non-empty range.
    spec fn spec_range_ok(start: O, end: O) -> bool;

    /// `self` saturated into `[start, end]`.
    spec fn spec_cast_clamped(self, start: O, end: O) -> O;

    /// `self` saturated into the whole domain of `O`.
    spec fn spec_cast_clamping(self) -> O;

    /// Try to represent `self` as `O`.
    fn cast(self) -> (res: Option<O>)
        ensures
            res == self.spec_cast(),
    ;

    /// Try to represent `self` within the range `r` of `O`.
    fn cast_clipped(self, r: RangeInclusive<O>) -> (res: Option<O>)
        ensures
            res == self.spec_cast_clipped(r@.start, r@.end),
    ;

    /// Represent `self` in the range `r`, choosing the nearest end of `r`
    /// when `self` lies outside it.
    fn cast_clamped(self, r: RangeInclusive<O>) -> (res: O)
        requires
            Self::spec_range_ok(r@.start, r@.end),
        ensures
            res == self.spec_cast_clamped(r@.start, r@.end),
    ;

    /// Represent `self` as `O`, choosing the nearest value of `O` when `self`
    /// lies outside its domain.
    fn cast_clamping(self) -> (res: O)
        ensures
            res == self.spec_cast_clamping(),
    ;
}

/// Between two integer domains a value converts when, and only when, its
/// mathematical value lies in the target's bounds; the comparison is made in
/// a representation that holds both domains, so no pair of widths or
/// signedness loses information on the way.
impl<S: Bounded, T: Bounded> Cast<T> for S {
    open spec fn spec_cast(self) -> Option<T> {
        if T::lo() <= self.value() <= T::hi() {
            Some(T::from_value(self.value()))
        } else {
            None
        }
    }

    open spec fn spec_cast_clipped(self, start: T, end: T) -> Option<T> {
        if start.value() <= self.value() <= end.value() {
            Some(T::from_value(self.value()))
        } else {
            None
        }
    }

    open spec fn spec_range_ok(start: T, end: T) -> bool {
        start.value() <= end.value()
    }

    open spec fn spec_cast_clamped(self, start: T, end: T) -> T {
        T::from_value(clamp_int(self.value(), start.value(), end.value()))
    }

    open spec fn spec_cast_clamping(self) -> T {
        T::from_value(clamp_int(self.value(), T::lo(), T::hi()))
    }

    fn cast(self) -> (res: Option<T>) {
        proof {
            self.lemma_domain();
        }
        let w = self.widen();
        if widens::<S, T>() {
            Some(T::narrow(w))
        } else if T::min_wide().le(&w) && w.le(&T::max_wide()) {
            Some(T::narrow(w))
        } else {
            None
        }
    }

    fn cast_clipped(self, r: RangeInclusive<T>) -> (res: Option<T>) {
        let (start, end) = r.into_inner();
        proof {
            start.lemma_domain();
            end.lemma_domain();
        }
        let w = self.widen();
        if start.widen().le(&w) && w.le(&end.widen()) {
            Some(T::narrow(w))
        } else {
            None
        }
    }

    fn cast_clamped(self, r: RangeInclusive<T>) -> (res: T) {
        let (start, end) = r.into_inner();
        proof {
            start.lemma_domain();
            end.lemma_domain();
        }
        let w = self.widen();
        if w.lt(&start.widen()) {
            start
        } else if end.widen().lt(&w) {
            end
        } else {
            T::narrow(w)
        }
    }

    fn cast_clamping(self) -> (res: T) {
        let w = self.widen();
        proof {
            T::lemma_nonempty();
            self.lemma_domain();
        }
        if widens::<S, T>() {
            T::narrow(w)
        } else if w.lt(&T::min_wide()) {
            T::narrow(T::min_wide())
        } else if T::max_wide().lt(&w) {
            T::narrow(T::max_wide())
        } else {
            T::narrow(w)
        }
    }
}

/// A value that converts into `T` converts back into `S` unchanged.
pub proof fn lemma_cast_round_trip<S: Bounded, T: Bounded>(v: S)
    ensures
        match <S as Cast<T>>::spec_cast(v) {
            Some(t) => <T as Cast<S>>::spec_cast(t) == Some(v),
            None => true,
        },
{
    v.lemma_domain();
    if T::lo() <= v.value() <= T::hi() {
        T::lemma_from_value(v.value());
    }
}

/// A clamped conversion lies within its range, and agrees with the clipped
/// conversion wherever that one succeeds.
pub proof fn lemma_clamped_within<S: Bounded, T: Bounded>(v: S, start: T, end: T)
    requires
        start.value() <= end.value(),
    ensures
        start.value() <= <S as Cast<T>>::spec_cast_clamped(v, start, end).value() <= end.value(),
        <S as Cast<T>>::spec_cast_clamped(v, start, end).value() == clamp_int(
            v.value(),
            start.value(),
            end.value(),
        ),
        match <S as Cast<T>>::spec_cast_clipped(v, start, end) {
            Some(t) => t == <S as Cast<T>>::spec_cast_clamped(v, start, end),
            None => true,
        },
{
    start.lemma_domain();
    end.lemma_domain();
    T::lemma_from_value(clamp_int(v.value(), start.value(), end.value()));
}

/// A saturating conversion lies within the target's whole domain, and agrees
/// with the exact conversion wherever that one succeeds.
pub proof fn lemma_clamping_within<S: Bounded, T: Bounded>(v: S)
    ensures
        T::lo() <= <S as Cast<T>>::spec_cast_clamping(v).value() <= T::hi(),
        <S as Cast<T>>::spec_cast_clamping(v).value() == clamp_int(v.value(), T::lo(), T::hi()),
        match <S as Cast<T>>::spec_cast(v) {
            Some(t) => t == <S as Cast<T>>::spec_cast_clamping(v),
            None => true,
        },
{
    T::lemma_nonempty();
    T::lemma_from_value(clamp_int(v.value(), T::lo(), T::hi()));
}

/// Between a signed domain `I` and the unsigned domain `U` of the same width,
/// a signed value converts exactly when it is not negative, and an unsigned
/// value exactly when it does not exceed the signed maximum; the value is kept.
pub proof fn lemma_sign_change<I: Bounded, U: Bounded>(s: I, u: U)
    requires
        I::lo() == -(I::hi() + 1),
        U::lo() == 0,
        U::hi() == 2 * I::hi() + 1,
    ensures
        <I as Cast<U>>::spec_cast(s) is Some <==> s.value() >= 0,
        <U as Cast<I>>::spec_cast(u) is Some <==> u.value() <= I::hi(),
        match <I as Cast<U>>::spec_cast(s) {
            Some(t) => t.value() == s.value(),
            None => true,
        },
        match <U as Cast<I>>::spec_cast(u) {
            Some(t) => t.value() == u.value(),
            None => true,
        },
{
    s.lemma_domain();
    u.lemma_domain();
    if s.value() >= 0 {
        U::lemma_from_value(s.value());
    }
    if u.value() <= I::hi() {
        I::lemma_from_value(u.value());
    }
}

} // verus!
