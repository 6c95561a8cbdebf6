use rolling_nulls::native::NativeType;

#[test]
fn integers_are_no_floats_and_always_finite() {
    assert!(!<i64 as NativeType>::is_float());
    assert!(!<u8 as NativeType>::is_float());
    assert!(NativeType::is_finite(&i64::MAX));
    assert!(NativeType::is_finite(&0u32));
}

#[test]
fn integer_zero() {
    assert_eq!(<i8 as NativeType>::zeroed(), 0);
    assert_eq!(<i16 as NativeType>::zeroed(), 0);
    assert_eq!(<i32 as NativeType>::zeroed(), 0);
    assert_eq!(<i64 as NativeType>::zeroed(), 0);
    assert_eq!(<u8 as NativeType>::zeroed(), 0);
    assert_eq!(<u16 as NativeType>::zeroed(), 0);
    assert_eq!(<u32 as NativeType>::zeroed(), 0);
    assert_eq!(<u64 as NativeType>::zeroed(), 0);
    assert_eq!(<i128 as NativeType>::zeroed(), 0);
    assert_eq!(<u128 as NativeType>::zeroed(), 0);
}

#[test]
fn integer_sums_wrap() {
    assert_eq!(3i64.plus(4), 7);
    assert_eq!(i64::MAX.plus(1), i64::MIN);
    assert_eq!(i32::MIN.plus(-1), i32::MAX);
    assert_eq!(i16::MAX.plus(i16::MAX), -2);
    assert_eq!(127i8.plus(1), -128);
    assert_eq!(255u8.plus(2), 1);
    assert_eq!(u16::MAX.plus(1), 0);
    assert_eq!(u32::MAX.plus(u32::MAX), u32::MAX - 1);
    assert_eq!(u64::MAX.plus(1), 0);
    assert_eq!(i128::MAX.plus(1), i128::MIN);
    assert_eq!(u128::MAX.plus(3), 2);
    assert_eq!((1i128 << 100).plus(1i128 << 100), 1i128 << 101);
}

#[test]
fn integer_differences_wrap() {
    assert_eq!(3i64.minus(4), -1);
    assert_eq!(i64::MIN.minus(1), i64::MAX);
    assert_eq!(i32::MAX.minus(-1), i32::MIN);
    assert_eq!((-2i16).minus(i16::MAX), i16::MAX);
    assert_eq!((-128i8).minus(1), 127);
    assert_eq!(1u8.minus(2), 255);
    assert_eq!(0u16.minus(1), u16::MAX);
    assert_eq!(5u32.minus(7), u32::MAX - 1);
    assert_eq!(0u64.minus(u64::MAX), 1);
    assert_eq!(i128::MIN.minus(1), i128::MAX);
    assert_eq!(2u128.minus(3), u128::MAX);
}
