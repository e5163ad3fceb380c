use ranger::numeric::RangedError;
use ranger::numeric::{RangedU128, RangedU16, RangedU32, RangedU64, RangedU8};

#[test]
fn u8_ctor_valid() {
    let ranged = RangedU8::<{ u8::MIN }, { u8::MAX }>::new(10 as u8);
    assert!(ranged.is_ok());
}

#[test]
fn u8_ctor_boundary() {
    let ranged = RangedU8::<{ u8::MIN }, { u8::MIN }>::new(u8::MIN);
    assert!(ranged.is_ok());
}

#[test]
fn u8_ctor_small() {
    let ranged = RangedU8::<{ u8::MAX }, { u8::MAX }>::new(u8::MAX - 1);
    assert!(matches!(ranged.unwrap_err(), RangedError::TooSmall { .. }));
}

#[test]
fn u8_ctor_large() {
    let ranged = RangedU8::<{ u8::MIN }, { u8::MIN }>::new(u8::MIN + 1);
    assert!(matches!(ranged.unwrap_err(), RangedError::TooLarge { .. }));
}

#[test]
fn u8_ctor_invalid() {
    let ranged = RangedU8::<{ u8::MAX }, { u8::MIN }>::new(u8::MIN);
    assert!(matches!(ranged.unwrap_err(), RangedError::InvalidRange { .. }));
}

#[test]
fn u8_inner() {
    let number = u8::MIN;
    let ranged = RangedU8::<{ u8::MIN }, { u8::MAX }>::new(number).unwrap();
    assert_eq!(number, ranged.inner());
}

#[test]
fn u8_as_ref() {
    let number = u8::MIN;
    let ranged = RangedU8::<{ u8::MIN }, { u8::MAX }>::new(number).unwrap();
    assert_eq!(number, *ranged.as_ref());
}

#[test]
fn u8_unchecked_matches_checked() {
    let checked = RangedU8::<{ u8::MIN }, { u8::MAX }>::new(10 as u8).unwrap();
    let unchecked = RangedU8::<{ u8::MIN }, { u8::MAX }>::new_unchecked(10 as u8);
    assert_eq!(checked, unchecked);
    assert_eq!(checked.inner(), unchecked.inner());
}

#[test]
fn u16_ctor_valid() {
    let ranged = RangedU16::<{ u16::MIN }, { u16::MAX }>::new(10 as u16);
    assert!(ranged.is_ok());
}

#[test]
fn u16_ctor_boundary() {
    let ranged = RangedU16::<{ u16::MIN }, { u16::MIN }>::new(u16::MIN);
    assert!(ranged.is_ok());
}

#[test]
fn u16_ctor_small() {
    let ranged = RangedU16::<{ u16::MAX }, { u16::MAX }>::new(u16::MAX - 1);
    assert!(matches!(ranged.unwrap_err(), RangedError::TooSmall { .. }));
}

#[test]
fn u16_ctor_large() {
    let ranged = RangedU16::<{ u16::MIN }, { u16::MIN }>::new(u16::MIN + 1);
    assert!(matches!(ranged.unwrap_err(), RangedError::TooLarge { .. }));
}

#[test]
fn u16_ctor_invalid() {
    let ranged = RangedU16::<{ u16::MAX }, { u16::MIN }>::new(u16::MIN);
    assert!(matches!(ranged.unwrap_err(), RangedError::InvalidRange { .. }));
}

#[test]
fn u16_inner() {
    let number = u16::MIN;
    let ranged = RangedU16::<{ u16::MIN }, { u16::MAX }>::new(number).unwrap();
    assert_eq!(number, ranged.inner());
}

#[test]
fn u16_as_ref() {
    let number = u16::MIN;
    let ranged = RangedU16::<{ u16::MIN }, { u16::MAX }>::new(number).unwrap();
    assert_eq!(number, *ranged.as_ref());
}

#[test]
fn u16_unchecked_matches_checked() {
    let checked = RangedU16::<{ u16::MIN }, { u16::MAX }>::new(10 as u16).unwrap();
    let unchecked = RangedU16::<{ u16::MIN }, { u16::MAX }>::new_unchecked(10 as u16);
    assert_eq!(checked, unchecked);
    assert_eq!(checked.inner(), unchecked.inner());
}

#[test]
fn u32_ctor_valid() {
    let ranged = RangedU32::<{ u32::MIN }, { u32::MAX }>::new(10 as u32);
    assert!(ranged.is_ok());
}

#[test]
fn u32_ctor_boundary() {
    let ranged = RangedU32::<{ u32::MIN }, { u32::MIN }>::new(u32::MIN);
    assert!(ranged.is_ok());
}

#[test]
fn u32_ctor_small() {
    let ranged = RangedU32::<{ u32::MAX }, { u32::MAX }>::new(u32::MAX - 1);
    assert!(matches!(ranged.unwrap_err(), RangedError::TooSmall { .. }));
}

#[test]
fn u32_ctor_large() {
    let ranged = RangedU32::<{ u32::MIN }, { u32::MIN }>::new(u32::MIN + 1);
    assert!(matches!(ranged.unwrap_err(), RangedError::TooLarge { .. }));
}

#[test]
fn u32_ctor_invalid() {
    let ranged = RangedU32::<{ u32::MAX }, { u32::MIN }>::new(u32::MIN);
    assert!(matches!(ranged.unwrap_err(), RangedError::InvalidRange { .. }));
}

#[test]
fn u32_inner() {
    let number = u32::MIN;
    let ranged = RangedU32::<{ u32::MIN }, { u32::MAX }>::new(number).unwrap();
    assert_eq!(number, ranged.inner());
}

#[test]
fn u32_as_ref() {
    let number = u32::MIN;
    let ranged = RangedU32::<{ u32::MIN }, { u32::MAX }>::new(number).unwrap();
    assert_eq!(number, *ranged.as_ref());
}

#[test]
fn u32_unchecked_matches_checked() {
    let checked = RangedU32::<{ u32::MIN }, { u32::MAX }>::new(10 as u32).unwrap();
    let unchecked = RangedU32::<{ u32::MIN }, { u32::MAX }>::new_unchecked(10 as u32);
    assert_eq!(checked, unchecked);
    assert_eq!(checked.inner(), unchecked.inner());
}

#[test]
fn u64_ctor_valid() {
    let ranged = RangedU64::<{ u64::MIN }, { u64::MAX }>::new(10 as u64);
    assert!(ranged.is_ok());
}

#[test]
fn u64_ctor_boundary() {
    let ranged = RangedU64::<{ u64::MIN }, { u64::MIN }>::new(u64::MIN);
    assert!(ranged.is_ok());
}

#[test]
fn u64_ctor_small() {
    let ranged = RangedU64::<{ u64::MAX }, { u64::MAX }>::new(u64::MAX - 1);
    assert!(matches!(ranged.unwrap_err(), RangedError::TooSmall { .. }));
}

#[test]
fn u64_ctor_large() {
    let ranged = RangedU64::<{ u64::MIN }, { u64::MIN }>::new(u64::MIN + 1);
    assert!(matches!(ranged.unwrap_err(), RangedError::TooLarge { .. }));
}

#[test]
fn u64_ctor_invalid() {
    let ranged = RangedU64::<{ u64::MAX }, { u64::MIN }>::new(u64::MIN);
    assert!(matches!(ranged.unwrap_err(), RangedError::InvalidRange { .. }));
}

#[test]
fn u64_inner() {
    let number = u64::MIN;
    let ranged = RangedU64::<{ u64::MIN }, { u64::MAX }>::new(number).unwrap();
    assert_eq!(number, ranged.inner());
}

#[test]
fn u64_as_ref() {
    let number = u64::MIN;
    let ranged = RangedU64::<{ u64::MIN }, { u64::MAX }>::new(number).unwrap();
    assert_eq!(number, *ranged.as_ref());
}

#[test]
fn u64_unchecked_matches_checked() {
    let checked = RangedU64::<{ u64::MIN }, { u64::MAX }>::new(10 as u64).unwrap();
    let unchecked = RangedU64::<{ u64::MIN }, { u64::MAX }>::new_unchecked(10 as u64);
    assert_eq!(checked, unchecked);
    assert_eq!(checked.inner(), unchecked.inner());
}

#[test]
fn u128_ctor_valid() {
    let ranged = RangedU128::<{ u128::MIN }, { u128::MAX }>::new(10 as u128);
    assert!(ranged.is_ok());
}

#[test]
fn u128_ctor_boundary() {
    let ranged = RangedU128::<{ u128::MIN }, { u128::MIN }>::new(u128::MIN);
    assert!(ranged.is_ok());
}

#[test]
fn u128_ctor_small() {
    let ranged = RangedU128::<{ u128::MAX }, { u128::MAX }>::new(u128::MAX - 1);
    assert!(matches!(ranged.unwrap_err(), RangedError::TooSmall { .. }));
}

#[test]
fn u128_ctor_large() {
    let ranged = RangedU128::<{ u128::MIN }, { u128::MIN }>::new(u128::MIN + 1);
    assert!(matches!(ranged.unwrap_err(), RangedError::TooLarge { .. }));
}

#[test]
fn u128_ctor_invalid() {
    let ranged = RangedU128::<{ u128::MAX }, { u128::MIN }>::new(u128::MIN);
    assert!(matches!(ranged.unwrap_err(), RangedError::InvalidRange { .. }));
}

#[test]
fn u128_inner() {
    let number = u128::MIN;
    let ranged = RangedU128::<{ u128::MIN }, { u128::MAX }>::new(number).unwrap();
    assert_eq!(number, ranged.inner());
}

#[test]
fn u128_as_ref() {
    let number = u128::MIN;
    let ranged = RangedU128::<{ u128::MIN }, { u128::MAX }>::new(number).unwrap();
    assert_eq!(number, *ranged.as_ref());
}

#[test]
fn u128_unchecked_matches_checked() {
    let checked = RangedU128::<{ u128::MIN }, { u128::MAX }>::new(10 as u128).unwrap();
    let unchecked = RangedU128::<{ u128::MIN }, { u128::MAX }>::new_unchecked(10 as u128);
    assert_eq!(checked, unchecked);
    assert_eq!(checked.inner(), unchecked.inner());
}
