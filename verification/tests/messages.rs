use ranger::numeric::{RangedError, RangedI128, RangedI64, RangedI8, RangedU128, RangedU8};
use ranger::render::{decimal_i128, decimal_u128};

#[test]
fn decimal_of_zero() {
    assert_eq!(decimal_u128(0), "0");
    assert_eq!(decimal_i128(0), "0");
}

#[test]
fn decimal_of_small_numbers() {
    assert_eq!(decimal_u128(7), "7");
    assert_eq!(decimal_u128(10), "10");
    assert_eq!(decimal_u128(12345), "12345");
    assert_eq!(decimal_u128(1000007), "1000007");
}

#[test]
fn decimal_of_negative_numbers() {
    assert_eq!(decimal_i128(-1), "-1");
    assert_eq!(decimal_i128(-10), "-10");
    assert_eq!(decimal_i128(-98765), "-98765");
}

#[test]
fn decimal_of_extremes() {
    assert_eq!(decimal_u128(u128::MAX), format!("{}", u128::MAX));
    assert_eq!(decimal_i128(i128::MAX), format!("{}", i128::MAX));
    assert_eq!(decimal_i128(i128::MIN), format!("{}", i128::MIN));
}

#[test]
fn decimal_matches_std_rendering() {
    for n in [0u128, 1, 9, 10, 11, 99, 100, 101, 4096, 65535] {
        assert_eq!(decimal_u128(n), format!("{n}"));
    }
    for n in [-65535i128, -4096, -101, -100, -99, -11, -10, -9, -1] {
        assert_eq!(decimal_i128(n), format!("{n}"));
    }
}

#[test]
fn too_small_message_text() {
    let err = RangedU8::<18, { u8::MAX }>::new(17).unwrap_err();
    assert_eq!(
        err.message(),
        "value provided, 17, is lesser than the minimum value, 18, for the type"
    );
}

#[test]
fn too_large_message_text() {
    let err = RangedU8::<0, 100>::new(255).unwrap_err();
    assert_eq!(
        err.message(),
        "value provided, 255, is greater than the maximum value, 100, for the type"
    );
}

#[test]
fn invalid_range_message_text() {
    let err = RangedU8::<200, 100>::new(150).unwrap_err();
    assert_eq!(
        err.message(),
        "the minimum value, 200, is greater than the maximum value, 100"
    );
}

#[test]
fn signed_message_text() {
    let err = RangedI8::new(-5, 10, -20).unwrap_err();
    assert_eq!(
        err.message(),
        "value provided, -20, is lesser than the minimum value, -5, for the type"
    );
    let err = RangedI8::new(-5, 10, 20).unwrap_err();
    assert_eq!(
        err.message(),
        "value provided, 20, is greater than the maximum value, 10, for the type"
    );
    let err = RangedI8::new(10, -5, 0).unwrap_err();
    assert_eq!(
        err.message(),
        "the minimum value, 10, is greater than the maximum value, -5"
    );
}

#[test]
fn widest_message_text() {
    let err = RangedU128::<0, 10>::new(u128::MAX).unwrap_err();
    assert_eq!(
        err.message(),
        format!(
            "value provided, {}, is greater than the maximum value, 10, for the type",
            u128::MAX
        )
    );
    let err = RangedI128::new(0, 10, i128::MIN).unwrap_err();
    assert_eq!(
        err.message(),
        format!(
            "value provided, {}, is lesser than the minimum value, 0, for the type",
            i128::MIN
        )
    );
}

#[test]
fn error_message_from_plain_enum_value() {
    let err: RangedError<i64> = RangedError::TooLarge { value: 7, maximum: -3 };
    assert_eq!(
        err.message(),
        "value provided, 7, is greater than the maximum value, -3, for the type"
    );
    let err: RangedError<i64> = RangedError::InvalidRange { minimum: 1, maximum: 0 };
    assert_eq!(
        err.message(),
        "the minimum value, 1, is greater than the maximum value, 0"
    );
}

#[test]
fn value_renders_as_its_scalar() {
    let ranged = RangedU8::<18, { u8::MAX }>::new(42).unwrap();
    assert_eq!(ranged.to_decimal(), "42");
    let ranged = RangedI64::new(-100, 100, -42).unwrap();
    assert_eq!(ranged.to_decimal(), "-42");
}
