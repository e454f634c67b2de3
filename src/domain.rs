//! Integer domains: their values as mathematical integers and their bounds.

use vstd::prelude::*;

verus! {

/// An integer of any supported domain, held as a sign and a magnitude.
///
/// Every value of every fixed-width integer type, from `i128::MIN` to
/// `u128::MAX`, has a representation here, so comparisons between two
/// different domains can be made without loss.
#[derive(Clone, Copy)]
pub struct WideInt {
    pub neg: bool,
    pub mag: u128,
}

impl WideInt {
    /// The mathematical integer this represents.
    pub open spec fn value(self) -> int {
        if self.neg {
            -(self.mag as int)
        } else {
            self.mag as int
        }
    }

    pub fn of_u128(x: u128) -> (w: WideInt)
        ensures
            w.value() == x as int,
    {
        WideInt { neg: false, mag: x }
    }

    pub fn of_i128(x: i128) -> (w: WideInt)
        ensures
            w.value() == x as int,
    {
        if x < 0 {
            let m: u128 = (-(x + 1)) as u128 + 1;
            WideInt { neg: true, mag: m }
        } else {
            WideInt { neg: false, mag: x as u128 }
        }
    }

    pub fn to_u128(self) -> (x: u128)
        requires
            0 <= self.value(),
        ensures
            x as int == self.value(),
    {
        if self.neg {
            0
        } else {
            self.mag
        }
    }

    pub fn to_i128(self) -> (x: i128)
        requires
            i128::MIN <= self.value() <= i128::MAX,
        ensures
            x as int == self.value(),
    {
        if self.neg {
            if self.mag == 0 {
                0
            } else {
                -((self.mag - 1) as i128) - 1
            }
        } else {
            self.mag as i128
        }
    }

    pub fn le(&self, other: &WideInt) -> (r: bool)
        ensures
            r == (self.value() <= other.value()),
    {
        match (self.neg, other.neg) {
            (false, false) => self.mag <= other.mag,
            (true, true) => other.mag <= self.mag,
            (true, false) => true,
            (false, true) => self.mag == 0 && other.mag == 0,
        }
    }

    pub fn lt(&self, other: &WideInt) -> (r: bool)
        ensures
            r == (self.value() < other.value()),
    {
        !other.le(self)
    }
}

/// A fixed-width integer domain: its values, as mathematical integers, and
/// its static bounds.
pub trait Bounded: Sized + Copy {
    spec fn value(self) -> int;

    spec fn lo() -> int;

    spec fn hi() -> int;

    /// The element of the domain whose value is `v`, for `v` in the domain.
    spec fn from_value(v: int) -> Self;

    proof fn lemma_domain(self)
        ensures
            Self::lo() <= self.value() <= Self::hi(),
            Self::from_value(self.value()) == self,
    ;

    proof fn lemma_nonempty()
        ensures
            Self::lo() <= Self::hi(),
    ;

    proof fn lemma_from_value(v: int)
        requires
            Self::lo() <= v <= Self::hi(),
        ensures
            Self::from_value(v).value() == v,
    ;

    fn widen(self) -> (w: WideInt)
        ensures
            w.value() == self.value(),
    ;

    fn narrow(w: WideInt) -> (r: Self)
        requires
            Self::lo() <= w.value() <= Self::hi(),
        ensures
            r == Self::from_value(w.value()),
    ;

    fn min_wide() -> (w: WideInt)
        ensures
            w.value() == Self::lo(),
    ;

    fn max_wide() -> (w: WideInt)
        ensures
            w.value() == Self::hi(),
    ;
}

impl Bounded for u8 {
    open spec fn value(self) -> int {
        self as int
    }

    open spec fn lo() -> int {
        0
    }

    open spec fn hi() -> int {
        u8::MAX as int
    }

    open spec fn from_value(v: int) -> u8 {
        v as u8
    }

    proof fn lemma_domain(self) {
    }

    proof fn lemma_nonempty() {
    }

    proof fn lemma_from_value(v: int) {
    }

    fn widen(self) -> WideInt {
        WideInt::of_u128(self as u128)
    }

    fn narrow(w: WideInt) -> u8 {
        w.to_u128() as u8
    }

    fn min_wide() -> WideInt {
        WideInt::of_u128(0)
    }

    fn max_wide() -> WideInt {
        WideInt::of_u128(u8::MAX as u128)
    }
}

impl Bounded for i8 {
    open spec fn value(self) -> int {
        self as int
    }

    open spec fn lo() -> int {
        i8::MIN as int
    }

    open spec fn hi() -> int {
        i8::MAX as int
    }

    open spec fn from_value(v: int) -> i8 {
        v as i8
    }

    proof fn lemma_domain(self) {
    }

    proof fn lemma_nonempty() {
    }

    proof fn lemma_from_value(v: int) {
    }

    fn widen(self) -> WideInt {
        WideInt::of_i128(self as i128)
    }

    fn narrow(w: WideInt) -> i8 {
        w.to_i128() as i8
    }

    fn min_wide() -> WideInt {
        WideInt::of_i128(i8::MIN as i128)
    }

    fn max_wide() -> WideInt {
        WideInt::of_i128(i8::MAX as i128)
    }
}


impl Bounded for u16 {
    open spec fn value(self) -> int {
        self as int
    }

    open spec fn lo() -> int {
        0
    }

    open spec fn hi() -> int {
        u16::MAX as int
    }

    open spec fn from_value(v: int) -> u16 {
        v as u16
    }

    proof fn lemma_domain(self) {
    }

    proof fn lemma_nonempty() {
    }

    proof fn lemma_from_value(v: int) {
    }

    fn widen(self) -> WideInt {
        WideInt::of_u128(self as u128)
    }

    fn narrow(w: WideInt) -> u16 {
        w.to_u128() as u16
    }

    fn min_wide() -> WideInt {
        WideInt::of_u128(0)
    }

    fn max_wide() -> WideInt {
        WideInt::of_u128(u16::MAX as u128)
    }
}

impl Bounded for u32 {
    open spec fn value(self) -> int {
        self as int
    }

    open spec fn lo() -> int {
        0
    }

    open spec fn hi() -> int {
        u32::MAX as int
    }

    open spec fn from_value(v: int) -> u32 {
        v as u32
    }

    proof fn lemma_domain(self) {
    }

    proof fn lemma_nonempty() {
    }

    proof fn lemma_from_value(v: int) {
    }

    fn widen(self) -> WideInt {
        WideInt::of_u128(self as u128)
    }

    fn narrow(w: WideInt) -> u32 {
        w.to_u128() as u32
    }

    fn min_wide() -> WideInt {
        WideInt::of_u128(0)
    }

    fn max_wide() -> WideInt {
        WideInt::of_u128(u32::MAX as u128)
    }
}

impl Bounded for u64 {
    open spec fn value(self) -> int {
        self as int
    }

    open spec fn lo() -> int {
        0
    }

    open spec fn hi() -> int {
        u64::MAX as int
    }

    open spec fn from_value(v: int) -> u64 {
        v as u64
    }

    proof fn lemma_domain(self) {
    }

    proof fn lemma_nonempty() {
    }

    proof fn lemma_from_value(v: int) {
    }

    fn widen(self) -> WideInt {
        WideInt::of_u128(self as u128)
    }

    fn narrow(w: WideInt) -> u64 {
        w.to_u128() as u64
    }

    fn min_wide() -> WideInt {
        WideInt::of_u128(0)
    }

    fn max_wide() -> WideInt {
        WideInt::of_u128(u64::MAX as u128)
    }
}

impl Bounded for u128 {
    open spec fn value(self) -> int {
        self as int
    }

    open spec fn lo() -> int {
        0
    }

    open spec fn hi() -> int {
        u128::MAX as int
    }

    open spec fn from_value(v: int) -> u128 {
        v as u128
    }

    proof fn lemma_domain(self) {
    }

    proof fn lemma_nonempty() {
    }

    proof fn lemma_from_value(v: int) {
    }

    fn widen(self) -> WideInt {
        WideInt::of_u128(self)
    }

    fn narrow(w: WideInt) -> u128 {
        w.to_u128()
    }

    fn min_wide() -> WideInt {
        WideInt::of_u128(0)
    }

    fn max_wide() -> WideInt {
        WideInt::of_u128(u128::MAX)
    }
}

impl Bounded for usize {
    open spec fn value(self) -> int {
        self as int
    }

    open spec fn lo() -> int {
        0
    }

    open spec fn hi() -> int {
        usize::MAX as int
    }

    open spec fn from_value(v: int) -> usize {
        v as usize
    }

    proof fn lemma_domain(self) {
    }

    proof fn lemma_nonempty() {
    }

    proof fn lemma_from_value(v: int) {
    }

    fn widen(self) -> WideInt {
        WideInt::of_u128(self as u128)
    }

    fn narrow(w: WideInt) -> usize {
        w.to_u128() as usize
    }

    fn min_wide() -> WideInt {
        WideInt::of_u128(0)
    }

    fn max_wide() -> WideInt {
        WideInt::of_u128(usize::MAX as u128)
    }
}

impl Bounded for i16 {
    open spec fn value(self) -> int {
        self as int
    }

    open spec fn lo() -> int {
        i16::MIN as int
    }

    open spec fn hi() -> int {
        i16::MAX as int
    }

    open spec fn from_value(v: int) -> i16 {
        v as i16
    }

    proof fn lemma_domain(self) {
    }

    proof fn lemma_nonempty() {
    }

    proof fn lemma_from_value(v: int) {
    }

    fn widen(self) -> WideInt {
        WideInt::of_i128(self as i128)
    }

    fn narrow(w: WideInt) -> i16 {
        w.to_i128() as i16
    }

    fn min_wide() -> WideInt {
        WideInt::of_i128(i16::MIN as i128)
    }

    fn max_wide() -> WideInt {
        WideInt::of_i128(i16::MAX as i128)
    }
}

impl Bounded for i32 {
    open spec fn value(self) -> int {
        self as int
    }

    open spec fn lo() -> int {
        i32::MIN as int
    }

    open spec fn hi() -> int {
        i32::MAX as int
    }

    open spec fn from_value(v: int) -> i32 {
        v as i32
    }

    proof fn lemma_domain(self) {
    }

    proof fn lemma_nonempty() {
    }

    proof fn lemma_from_value(v: int) {
    }

    fn widen(self) -> WideInt {
        WideInt::of_i128(self as i128)
    }

    fn narrow(w: WideInt) -> i32 {
        w.to_i128() as i32
    }

    fn min_wide() -> WideInt {
        WideInt::of_i128(i32::MIN as i128)
    }

    fn max_wide() -> WideInt {
        WideInt::of_i128(i32::MAX as i128)
    }
}

impl Bounded for i64 {
    open spec fn value(self) -> int {
        self as int
    }

    open spec fn lo() -> int {
        i64::MIN as int
    }

    open spec fn hi() -> int {
        i64::MAX as int
    }

    open spec fn from_value(v: int) -> i64 {
        v as i64
    }

    proof fn lemma_domain(self) {
    }

    proof fn lemma_nonempty() {
    }

    proof fn lemma_from_value(v: int) {
    }

    fn widen(self) -> WideInt {
        WideInt::of_i128(self as i128)
    }

    fn narrow(w: WideInt) -> i64 {
        w.to_i128() as i64
    }

    fn min_wide() -> WideInt {
        WideInt::of_i128(i64::MIN as i128)
    }

    fn max_wide() -> WideInt {
        WideInt::of_i128(i64::MAX as i128)
    }
}

impl Bounded for i128 {
    open spec fn value(self) -> int {
        self as int
    }

    open spec fn lo() -> int {
        i128::MIN as int
    }

    open spec fn hi() -> int {
        i128::MAX as int
    }

    open spec fn from_value(v: int) -> i128 {
        v as i128
    }

    proof fn lemma_domain(self) {
    }

    proof fn lemma_nonempty() {
    }

    proof fn lemma_from_value(v: int) {
    }

    fn widen(self) -> WideInt {
        WideInt::of_i128(self)
    }

    fn narrow(w: WideInt) -> i128 {
        w.to_i128()
    }

    fn min_wide() -> WideInt {
        WideInt::of_i128(i128::MIN as i128)
    }

    fn max_wide() -> WideInt {
        WideInt::of_i128(i128::MAX)
    }
}

impl Bounded for isize {
    open spec fn value(self) -> int {
        self as int
    }

    open spec fn lo() -> int {
        isize::MIN as int
    }

    open spec fn hi() -> int {
        isize::MAX as int
    }

    open spec fn from_value(v: int) -> isize {
        v as isize
    }

    proof fn lemma_domain(self) {
    }

    proof fn lemma_nonempty() {
    }

    proof fn lemma_from_value(v: int) {
    }

    fn widen(self) -> WideInt {
        WideInt::of_i128(self as i128)
    }

    fn narrow(w: WideInt) -> isize {
        w.to_i128() as isize
    }

    fn min_wide() -> WideInt {
        WideInt::of_i128(isize::MIN as i128)
    }

    fn max_wide() -> WideInt {
        WideInt::of_i128(isize::MAX as i128)
    }
}

} // verus!
