use ranger::numeric::{RangedError, RangedI32, RangedU8};

#[test]
fn _ignore() {}

// The motivating "legal adult age" scenario: an 8-bit value bounded to
// `[18, 255]`.
#[test]
fn adult_age_too_small() {
    let ranged = RangedU8::<18, { u8::MAX }>::new(17);
    assert_eq!(
        ranged.unwrap_err(),
        RangedError::TooSmall { value: 17, minimum: 18 }
    );
}

#[test]
fn adult_age_minimum_accepted() {
    let ranged = RangedU8::<18, { u8::MAX }>::new(18).unwrap();
    assert_eq!(ranged.inner(), 18);
}

#[test]
fn adult_age_maximum_accepted() {
    let ranged = RangedU8::<18, { u8::MAX }>::new(255).unwrap();
    assert_eq!(ranged.inner(), 255);
}

#[test]
fn inverted_range_rejects_everything() {
    let ranged = RangedU8::<200, 100>::new(150);
    assert_eq!(
        ranged.unwrap_err(),
        RangedError::InvalidRange { minimum: 200, maximum: 100 }
    );
}

// Boundary inclusion on a range that is a strict subset of the
// representation.
#[test]
fn boundary_inclusion() {
    assert!(RangedU8::<18, 30>::new(18).is_ok());
    assert!(RangedU8::<18, 30>::new(30).is_ok());
    assert!(RangedI32::new(-7, 9, -7).is_ok());
    assert!(RangedI32::new(-7, 9, 9).is_ok());
}

// Off-by-one around a range that holds exactly one value.
#[test]
fn off_by_one_around_singleton() {
    assert_eq!(
        RangedU8::<42, 42>::new(41).unwrap_err(),
        RangedError::TooSmall { value: 41, minimum: 42 }
    );
    assert_eq!(
        RangedU8::<42, 42>::new(43).unwrap_err(),
        RangedError::TooLarge { value: 43, maximum: 42 }
    );
    assert_eq!(
        RangedI32::new(-3, -3, -4).unwrap_err(),
        RangedError::TooSmall { value: -4, minimum: -3 }
    );
    assert_eq!(
        RangedI32::new(-3, -3, -2).unwrap_err(),
        RangedError::TooLarge { value: -2, maximum: -3 }
    );
}

// An inverted range takes precedence over the value checks: the value
// here would also be below the minimum, yet the error is InvalidRange.
#[test]
fn invalid_range_precedes_value_checks() {
    assert_eq!(
        RangedU8::<200, 100>::new(0).unwrap_err(),
        RangedError::InvalidRange { minimum: 200, maximum: 100 }
    );
    assert_eq!(
        RangedI32::new(5, -5, 100).unwrap_err(),
        RangedError::InvalidRange { minimum: 5, maximum: -5 }
    );
}

// Round trip: an accepted value comes back out unchanged.
#[test]
fn round_trip_unchanged() {
    for value in [18u8, 19, 100, 254, 255] {
        let ranged = RangedU8::<18, { u8::MAX }>::new(value).unwrap();
        assert_eq!(ranged.inner(), value);
    }
    for value in [-50i32, -1, 0, 1, 50] {
        let ranged = RangedI32::new(-50, 50, value).unwrap();
        assert_eq!(ranged.inner(), value);
    }
}

// Unchecked construction with an in-range value is indistinguishable
// from checked construction on every later read.
#[test]
fn unchecked_reads_match_checked() {
    let checked = RangedU8::<18, { u8::MAX }>::new(21).unwrap();
    let unchecked = RangedU8::<18, { u8::MAX }>::new_unchecked(21);
    assert_eq!(checked, unchecked);
    assert_eq!(checked.inner(), unchecked.inner());
    assert_eq!(checked.as_ref(), unchecked.as_ref());
    assert_eq!(checked.to_decimal(), unchecked.to_decimal());

    let checked = RangedI32::new(-50, 50, -21).unwrap();
    let unchecked = RangedI32::new_unchecked(-50, 50, -21);
    assert_eq!(checked, unchecked);
    assert_eq!(checked.inner(), unchecked.inner());
    assert_eq!(checked.minimum(), unchecked.minimum());
    assert_eq!(checked.maximum(), unchecked.maximum());
}
