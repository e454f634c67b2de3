use realnum::domain::{Bounded, WideInt};

#[test]
fn wide_int_holds_both_extremes() {
    let lo = WideInt::of_i128(i128::MIN);
    assert!(lo.neg);
    assert_eq!(lo.mag, 1u128 << 127);
    assert_eq!(lo.to_i128(), i128::MIN);
    let hi = WideInt::of_u128(u128::MAX);
    assert_eq!(hi.to_u128(), u128::MAX);
    assert!(lo.lt(&hi));
    assert!(!hi.le(&lo));
}

#[test]
fn wide_int_compares_across_signs() {
    let minus_one = WideInt::of_i128(-1);
    let zero = WideInt::of_u128(0);
    let minus_zero = WideInt { neg: true, mag: 0 };
    assert!(minus_one.lt(&zero));
    assert!(minus_zero.le(&zero) && zero.le(&minus_zero));
    assert!(!minus_zero.lt(&zero));
    assert_eq!(minus_zero.to_i128(), 0);
    assert_eq!(minus_zero.to_u128(), 0);
}

#[test]
fn domain_bounds_round_trip() {
    assert_eq!(<i8 as Bounded>::narrow(<i8 as Bounded>::min_wide()), i8::MIN);
    assert_eq!(<u64 as Bounded>::narrow(<u64 as Bounded>::max_wide()), u64::MAX);
    assert_eq!(<isize as Bounded>::narrow((-5isize).widen()), -5isize);
    assert_eq!(<u16 as Bounded>::widen(40000u16).mag, 40000u128);
}
