use ranger::numeric::RangedError;
use ranger::numeric::{RangedI128, RangedI16, RangedI32, RangedI64, RangedI8};

#[test]
fn i8_ctor_valid() {
    let ranged = RangedI8::new(i8::MIN, i8::MAX, 10 as i8);
    assert!(ranged.is_ok());
}

#[test]
fn i8_ctor_boundary() {
    let ranged = RangedI8::new(i8::MIN, i8::MIN, i8::MIN);
    assert!(ranged.is_ok());
}

#[test]
fn i8_ctor_small() {
    let ranged = RangedI8::new(i8::MAX, i8::MAX, i8::MAX - 1);
    assert!(matches!(ranged.unwrap_err(), RangedError::TooSmall { .. }));
}

#[test]
fn i8_ctor_large() {
    let ranged = RangedI8::new(i8::MIN, i8::MIN, i8::MIN + 1);
    assert!(matches!(ranged.unwrap_err(), RangedError::TooLarge { .. }));
}

#[test]
fn i8_ctor_invalid() {
    let ranged = RangedI8::new(i8::MAX, i8::MIN, i8::MIN);
    assert!(matches!(ranged.unwrap_err(), RangedError::InvalidRange { .. }));
}

#[test]
fn i8_inner() {
    let number = i8::MIN;
    let ranged = RangedI8::new(i8::MIN, i8::MAX, number).unwrap();
    assert_eq!(number, ranged.inner());
}

#[test]
fn i8_as_ref() {
    let number = i8::MIN;
    let ranged = RangedI8::new(i8::MIN, i8::MAX, number).unwrap();
    assert_eq!(number, *ranged.as_ref());
}

#[test]
fn i8_bounds_kept() {
    let ranged = RangedI8::new(-5, 10, 3).unwrap();
    assert_eq!(ranged.minimum(), -5);
    assert_eq!(ranged.maximum(), 10);
}

#[test]
fn i8_unchecked_matches_checked() {
    let checked = RangedI8::new(i8::MIN, i8::MAX, 10 as i8).unwrap();
    let unchecked = RangedI8::new_unchecked(i8::MIN, i8::MAX, 10 as i8);
    assert_eq!(checked, unchecked);
    assert_eq!(checked.inner(), unchecked.inner());
}

#[test]
fn i8_bound_isolation() {
    let narrow = RangedI8::new(0, 10, 5).unwrap();
    let wide = RangedI8::new(0, 20, 5).unwrap();
    assert_ne!(narrow, wide);
}

#[test]
fn i16_ctor_valid() {
    let ranged = RangedI16::new(i16::MIN, i16::MAX, 10 as i16);
    assert!(ranged.is_ok());
}

#[test]
fn i16_ctor_boundary() {
    let ranged = RangedI16::new(i16::MIN, i16::MIN, i16::MIN);
    assert!(ranged.is_ok());
}

#[test]
fn i16_ctor_small() {
    let ranged = RangedI16::new(i16::MAX, i16::MAX, i16::MAX - 1);
    assert!(matches!(ranged.unwrap_err(), RangedError::TooSmall { .. }));
}

#[test]
fn i16_ctor_large() {
    let ranged = RangedI16::new(i16::MIN, i16::MIN, i16::MIN + 1);
    assert!(matches!(ranged.unwrap_err(), RangedError::TooLarge { .. }));
}

#[test]
fn i16_ctor_invalid() {
    let ranged = RangedI16::new(i16::MAX, i16::MIN, i16::MIN);
    assert!(matches!(ranged.unwrap_err(), RangedError::InvalidRange { .. }));
}

#[test]
fn i16_inner() {
    let number = i16::MIN;
    let ranged = RangedI16::new(i16::MIN, i16::MAX, number).unwrap();
    assert_eq!(number, ranged.inner());
}

#[test]
fn i16_as_ref() {
    let number = i16::MIN;
    let ranged = RangedI16::new(i16::MIN, i16::MAX, number).unwrap();
    assert_eq!(number, *ranged.as_ref());
}

#[test]
fn i16_bounds_kept() {
    let ranged = RangedI16::new(-5, 10, 3).unwrap();
    assert_eq!(ranged.minimum(), -5);
    assert_eq!(ranged.maximum(), 10);
}

#[test]
fn i16_unchecked_matches_checked() {
    let checked = RangedI16::new(i16::MIN, i16::MAX, 10 as i16).unwrap();
    let unchecked = RangedI16::new_unchecked(i16::MIN, i16::MAX, 10 as i16);
    assert_eq!(checked, unchecked);
    assert_eq!(checked.inner(), unchecked.inner());
}

#[test]
fn i16_bound_isolation() {
    let narrow = RangedI16::new(0, 10, 5).unwrap();
    let wide = RangedI16::new(0, 20, 5).unwrap();
    assert_ne!(narrow, wide);
}

#[test]
fn i32_ctor_valid() {
    let ranged = RangedI32::new(i32::MIN, i32::MAX, 10 as i32);
    assert!(ranged.is_ok());
}

#[test]
fn i32_ctor_boundary() {
    let ranged = RangedI32::new(i32::MIN, i32::MIN, i32::MIN);
    assert!(ranged.is_ok());
}

#[test]
fn i32_ctor_small() {
    let ranged = RangedI32::new(i32::MAX, i32::MAX, i32::MAX - 1);
    assert!(matches!(ranged.unwrap_err(), RangedError::TooSmall { .. }));
}

#[test]
fn i32_ctor_large() {
    let ranged = RangedI32::new(i32::MIN, i32::MIN, i32::MIN + 1);
    assert!(matches!(ranged.unwrap_err(), RangedError::TooLarge { .. }));
}

#[test]
fn i32_ctor_invalid() {
    let ranged = RangedI32::new(i32::MAX, i32::MIN, i32::MIN);
    assert!(matches!(ranged.unwrap_err(), RangedError::InvalidRange { .. }));
}

#[test]
fn i32_inner() {
    let number = i32::MIN;
    let ranged = RangedI32::new(i32::MIN, i32::MAX, number).unwrap();
    assert_eq!(number, ranged.inner());
}

#[test]
fn i32_as_ref() {
    let number = i32::MIN;
    let ranged = RangedI32::new(i32::MIN, i32::MAX, number).unwrap();
    assert_eq!(number, *ranged.as_ref());
}

#[test]
fn i32_bounds_kept() {
    let ranged = RangedI32::new(-5, 10, 3).unwrap();
    assert_eq!(ranged.minimum(), -5);
    assert_eq!(ranged.maximum(), 10);
}

#[test]
fn i32_unchecked_matches_checked() {
    let checked = RangedI32::new(i32::MIN, i32::MAX, 10 as i32).unwrap();
    let unchecked = RangedI32::new_unchecked(i32::MIN, i32::MAX, 10 as i32);
    assert_eq!(checked, unchecked);
    assert_eq!(checked.inner(), unchecked.inner());
}

#[test]
fn i32_bound_isolation() {
    let narrow = RangedI32::new(0, 10, 5).unwrap();
    let wide = RangedI32::new(0, 20, 5).unwrap();
    assert_ne!(narrow, wide);
}

#[test]
fn i64_ctor_valid() {
    let ranged = RangedI64::new(i64::MIN, i64::MAX, 10 as i64);
    assert!(ranged.is_ok());
}

#[test]
fn i64_ctor_boundary() {
    let ranged = RangedI64::new(i64::MIN, i64::MIN, i64::MIN);
    assert!(ranged.is_ok());
}

#[test]
fn i64_ctor_small() {
    let ranged = RangedI64::new(i64::MAX, i64::MAX, i64::MAX - 1);
    assert!(matches!(ranged.unwrap_err(), RangedError::TooSmall { .. }));
}

#[test]
fn i64_ctor_large() {
    let ranged = RangedI64::new(i64::MIN, i64::MIN, i64::MIN + 1);
    assert!(matches!(ranged.unwrap_err(), RangedError::TooLarge { .. }));
}

#[test]
fn i64_ctor_invalid() {
    let ranged = RangedI64::new(i64::MAX, i64::MIN, i64::MIN);
    assert!(matches!(ranged.unwrap_err(), RangedError::InvalidRange { .. }));
}

#[test]
fn i64_inner() {
    let number = i64::MIN;
    let ranged = RangedI64::new(i64::MIN, i64::MAX, number).unwrap();
    assert_eq!(number, ranged.inner());
}

#[test]
fn i64_as_ref() {
    let number = i64::MIN;
    let ranged = RangedI64::new(i64::MIN, i64::MAX, number).unwrap();
    assert_eq!(number, *ranged.as_ref());
}

#[test]
fn i64_bounds_kept() {
    let ranged = RangedI64::new(-5, 10, 3).unwrap();
    assert_eq!(ranged.minimum(), -5);
    assert_eq!(ranged.maximum(), 10);
}

#[test]
fn i64_unchecked_matches_checked() {
    let checked = RangedI64::new(i64::MIN, i64::MAX, 10 as i64).unwrap();
    let unchecked = RangedI64::new_unchecked(i64::MIN, i64::MAX, 10 as i64);
    assert_eq!(checked, unchecked);
    assert_eq!(checked.inner(), unchecked.inner());
}

#[test]
fn i64_bound_isolation() {
    let narrow = RangedI64::new(0, 10, 5).unwrap();
    let wide = RangedI64::new(0, 20, 5).unwrap();
    assert_ne!(narrow, wide);
}

#[test]
fn i128_ctor_valid() {
    let ranged = RangedI128::new(i128::MIN, i128::MAX, 10 as i128);
    assert!(ranged.is_ok());
}

#[test]
fn i128_ctor_boundary() {
    let ranged = RangedI128::new(i128::MIN, i128::MIN, i128::MIN);
    assert!(ranged.is_ok());
}

#[test]
fn i128_ctor_small() {
    let ranged = RangedI128::new(i128::MAX, i128::MAX, i128::MAX - 1);
    assert!(matches!(ranged.unwrap_err(), RangedError::TooSmall { .. }));
}

#[test]
fn i128_ctor_large() {
    let ranged = RangedI128::new(i128::MIN, i128::MIN, i128::MIN + 1);
    assert!(matches!(ranged.unwrap_err(), RangedError::TooLarge { .. }));
}

#[test]
fn i128_ctor_invalid() {
    let ranged = RangedI128::new(i128::MAX, i128::MIN, i128::MIN);
    assert!(matches!(ranged.unwrap_err(), RangedError::InvalidRange { .. }));
}

#[test]
fn i128_inner() {
    let number = i128::MIN;
    let ranged = RangedI128::new(i128::MIN, i128::MAX, number).unwrap();
    assert_eq!(number, ranged.inner());
}

#[test]
fn i128_as_ref() {
    let number = i128::MIN;
    let ranged = RangedI128::new(i128::MIN, i128::MAX, number).unwrap();
    assert_eq!(number, *ranged.as_ref());
}

#[test]
fn i128_bounds_kept() {
    let ranged = RangedI128::new(-5, 10, 3).unwrap();
    assert_eq!(ranged.minimum(), -5);
    assert_eq!(ranged.maximum(), 10);
}

#[test]
fn i128_unchecked_matches_checked() {
    let checked = RangedI128::new(i128::MIN, i128::MAX, 10 as i128).unwrap();
    let unchecked = RangedI128::new_unchecked(i128::MIN, i128::MAX, 10 as i128);
    assert_eq!(checked, unchecked);
    assert_eq!(checked.inner(), unchecked.inner());
}

#[test]
fn i128_bound_isolation() {
    let narrow = RangedI128::new(0, 10, 5).unwrap();
    let wide = RangedI128::new(0, 20, 5).unwrap();
    assert_ne!(narrow, wide);
}
