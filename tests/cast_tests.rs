use realnum::cast::{widens, Cast};
use tuple::{T2, T3};

#[test]
fn clamping_i16_into_u8_saturates_at_max() {
    assert_eq!(Cast::<u8>::cast_clamping(300i16), 255u8);
}

#[test]
fn cast_narrowing_checks_bounds() {
    assert_eq!(Cast::<u8>::cast(300i16), None);
    assert_eq!(Cast::<u8>::cast(255i16), Some(255u8));
    assert_eq!(Cast::<i8>::cast(-129i32), None);
    assert_eq!(Cast::<i8>::cast(-128i32), Some(-128i8));
    assert_eq!(Cast::<u32>::cast(u64::MAX), None);
    assert_eq!(Cast::<i64>::cast(i128::MIN), None);
    assert_eq!(Cast::<u16>::cast(usize::MAX), None);
}

#[test]
fn cast_widening_always_succeeds() {
    assert_eq!(Cast::<i32>::cast(u8::MAX), Some(255i32));
    assert_eq!(Cast::<u128>::cast(u64::MAX), Some(u64::MAX as u128));
    assert_eq!(Cast::<i128>::cast(i64::MIN), Some(i64::MIN as i128));
    assert_eq!(Cast::<i128>::cast(u64::MAX), Some(u64::MAX as i128));
    assert_eq!(Cast::<isize>::cast(-7i8), Some(-7isize));
}

#[test]
fn cast_negative_into_unsigned_fails() {
    assert_eq!(Cast::<u128>::cast(-1i64), None);
    assert_eq!(Cast::<u8>::cast(-1i8), None);
    assert_eq!(Cast::<u128>::cast(i128::MIN), None);
}

#[test]
fn cast_same_width_sign_change() {
    assert_eq!(Cast::<u32>::cast(-1i32), None);
    assert_eq!(Cast::<u32>::cast(0i32), Some(0u32));
    assert_eq!(Cast::<u32>::cast(i32::MAX), Some(i32::MAX as u32));
    assert_eq!(Cast::<i32>::cast(2147483648u32), None);
    assert_eq!(Cast::<i32>::cast(2147483647u32), Some(i32::MAX));
    assert_eq!(Cast::<i8>::cast(128u8), None);
    assert_eq!(Cast::<u8>::cast(127i8), Some(127u8));
    assert_eq!(Cast::<i128>::cast(u128::MAX), None);
    assert_eq!(Cast::<isize>::cast(usize::MAX), None);
}

#[test]
fn cast_round_trip_restores_value() {
    let v: i64 = -12345;
    let t: i32 = Cast::<i32>::cast(v).unwrap();
    assert_eq!(Cast::<i64>::cast(t), Some(v));
    let u: u16 = 60000;
    let w: u64 = Cast::<u64>::cast(u).unwrap();
    assert_eq!(Cast::<u16>::cast(w), Some(u));
}

#[test]
fn clipped_inside_and_outside_range() {
    assert_eq!(Cast::<u16>::cast_clipped(3i32, 0u16..=5), Some(3u16));
    assert_eq!(Cast::<u16>::cast_clipped(-3i32, 0u16..=5), None);
    assert_eq!(Cast::<u16>::cast_clipped(8i32, 0u16..=5), None);
    assert_eq!(Cast::<usize>::cast_clipped(100i32, 0usize..=1000), Some(100usize));
    assert_eq!(Cast::<u8>::cast_clipped(5i64, 5u8..=5), Some(5u8));
}

#[test]
fn clipped_reversed_range_fails() {
    assert_eq!(Cast::<u16>::cast_clipped(3i32, 5u16..=0), None);
    assert_eq!(Cast::<i8>::cast_clipped(0u8, 1i8..=-1), None);
}

#[test]
fn clamped_saturates_to_range_ends() {
    assert_eq!(Cast::<u16>::cast_clamped(-8i32, 2u16..=5), 2u16);
    assert_eq!(Cast::<u16>::cast_clamped(9i32, 2u16..=5), 5u16);
    assert_eq!(Cast::<u16>::cast_clamped(3i32, 2u16..=5), 3u16);
    assert_eq!(Cast::<i8>::cast_clamped(200u8, -5i8..=100), 100i8);
    assert_eq!(Cast::<u8>::cast_clamped(-100i8, 200u8..=250), 200u8);
}

#[test]
fn clamped_agrees_with_clipped_inside_range() {
    for v in -10i32..=10 {
        let clipped = Cast::<i8>::cast_clipped(v, -4i8..=6);
        let clamped = Cast::<i8>::cast_clamped(v, -4i8..=6);
        assert!(-4 <= clamped && clamped <= 6);
        if let Some(t) = clipped {
            assert_eq!(t, clamped);
        }
    }
}

#[test]
fn clamping_saturates_to_domain() {
    assert_eq!(Cast::<u8>::cast_clamping(-5i32), 0u8);
    assert_eq!(Cast::<u16>::cast_clamping(70000i32), 65535u16);
    assert_eq!(Cast::<i64>::cast_clamping(u64::MAX), i64::MAX);
    assert_eq!(Cast::<u32>::cast_clamping(i64::MIN), 0u32);
    assert_eq!(Cast::<i8>::cast_clamping(-1000i128), i8::MIN);
    assert_eq!(Cast::<u64>::cast_clamping(u128::MAX), u64::MAX);
    assert_eq!(Cast::<i16>::cast_clamping(-7i32), -7i16);
}

#[test]
fn composite_cast_needs_every_element() {
    let ok: Option<T2<u8, i8>> = Cast::<T2<u8, i8>>::cast(T2(200i32, -3i32));
    assert_eq!(ok, Some(T2(200u8, -3i8)));
    let bad: Option<T2<u8, i8>> = Cast::<T2<u8, i8>>::cast(T2(200i32, -300i32));
    assert_eq!(bad, None);
    let bad_first: Option<T3<u8, u8, u8>> = Cast::<T3<u8, u8, u8>>::cast(T3(-1i16, 1i16, 2i16));
    assert_eq!(bad_first, None);
}

#[test]
fn composite_clipped_and_clamped_per_element() {
    let r = T2(0u16, 10u16)..=T2(5u16, 20u16);
    assert_eq!(Cast::<T2<u16, u16>>::cast_clipped(T2(3i32, 15i32), r.clone()), Some(T2(3u16, 15u16)));
    assert_eq!(Cast::<T2<u16, u16>>::cast_clipped(T2(3i32, 25i32), r.clone()), None);
    assert_eq!(Cast::<T2<u16, u16>>::cast_clamped(T2(-3i32, 25i32), r), T2(0u16, 20u16));
}

#[test]
fn composite_clamping_saturates_each_element() {
    let t: T3<u8, i8, u16> = Cast::<T3<u8, i8, u16>>::cast_clamping(T3(300i32, -300i32, 7i32));
    assert_eq!(t, T3(255u8, -128i8, 7u16));
}

#[test]
fn clamping_agrees_with_cast_where_it_succeeds() {
    for v in [-300i32, -129, -128, -1, 0, 1, 127, 128, 255, 256, 70000] {
        let clamped: i8 = Cast::<i8>::cast_clamping(v);
        if let Some(t) = Cast::<i8>::cast(v) {
            assert_eq!(t, clamped);
        } else {
            assert!(clamped == i8::MIN || clamped == i8::MAX);
        }
    }
}

#[test]
fn widening_pairs_are_detected() {
    assert!(widens::<u8, i16>());
    assert!(widens::<u32, u64>());
    assert!(widens::<i64, i128>());
    assert!(widens::<u64, u128>());
    assert!(!widens::<i8, u64>());
    assert!(!widens::<u16, i16>());
    assert!(!widens::<u128, i128>());
    assert!(widens::<u16, u16>());
}
