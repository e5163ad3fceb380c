//! Ranged signed integer types.
//!
//! Const generic parameters of signed integer type are not supported,
//! so these types hold their inclusive bounds as fields, fixed at
//! construction: the range is part of the instance rather than of the
//! type, and the guarantee that the value lies inside it is a type
//! invariant that every constructor establishes.  Values built against
//! different ranges are never equal, so a bound can still not be
//! reinterpreted as another one unnoticed.

use vstd::prelude::*;

use crate::numeric::RangedError;
use crate::render::{decimal_i128, spec_decimal_int};

verus! {

/// A ranged `i8` type with a value between a minimum and a maximum
/// fixed at construction.
#[derive(Debug, Copy, Clone, PartialEq, Eq, PartialOrd, Ord, Hash, Structural)]
pub struct RangedI8 {
    value: i8,
    minimum: i8,
    maximum: i8,
}

impl RangedI8 {
    #[verifier::type_invariant]
    spec fn in_range(self) -> bool {
        self.minimum <= self.value <= self.maximum
    }

    /// The stored scalar, for specifications.
    pub closed spec fn spec_value(self) -> i8 {
        self.value
    }

    /// The lower bound this value was constructed against.
    pub closed spec fn spec_minimum(self) -> i8 {
        self.minimum
    }

    /// The upper bound this value was constructed against.
    pub closed spec fn spec_maximum(self) -> i8 {
        self.maximum
    }

    /// What checked construction returns, as a function of the input:
    /// an unsatisfiable range is reported first, then the value is held
    /// against each bound in turn, and an accepted value is stored
    /// unchanged.
    pub closed spec fn spec_new(minimum: i8, maximum: i8, value: i8) -> Result<
        Self,
        RangedError<i8>,
    > {
        if minimum > maximum {
            Err(RangedError::InvalidRange { minimum, maximum })
        } else if value < minimum {
            Err(RangedError::TooSmall { value, minimum })
        } else if value > maximum {
            Err(RangedError::TooLarge { value, maximum })
        } else {
            Ok(RangedI8 { value, minimum, maximum })
        }
    }

    /// What unchecked construction returns.
    pub closed spec fn spec_new_unchecked(minimum: i8, maximum: i8, value: i8) -> Self {
        RangedI8 { value, minimum, maximum }
    }

    /// Create a new instance of the type, bounded by the given
    /// inclusive range.
    ///
    /// # Parameters
    ///
    /// The value must be in the range `minimum..=maximum`.
    pub fn new(minimum: i8, maximum: i8, value: i8) -> (r: Result<Self, RangedError<i8>>)
        ensures
            r == Self::spec_new(minimum, maximum, value),
            r is Ok <==> minimum <= value <= maximum,
            r is Ok ==> r->Ok_0.spec_value() == value && r->Ok_0.spec_minimum() == minimum
                && r->Ok_0.spec_maximum() == maximum,
            minimum > maximum ==> r == Err::<Self, RangedError<i8>>(
                (RangedError::InvalidRange { minimum, maximum }),
            ),
            minimum <= maximum && value < minimum ==> r == Err::<Self, RangedError<i8>>(
                (RangedError::TooSmall { value, minimum }),
            ),
            minimum <= maximum && value > maximum ==> r == Err::<Self, RangedError<i8>>(
                (RangedError::TooLarge { value, maximum }),
            ),
    {
        if minimum > maximum {
            return Err(RangedError::InvalidRange { minimum, maximum });
        }
        if value < minimum {
            Err(RangedError::TooSmall { value, minimum })
        } else if value > maximum {
            Err(RangedError::TooLarge { value, maximum })
        } else {
            Ok(RangedI8 { value, minimum, maximum })
        }
    }

    /// Create a new instance of the type without a bounds check.
    ///
    /// The caller must prove that the value is in the range
    /// `minimum..=maximum`; no validation happens at runtime, and with
    /// an empty range (minimum greater than maximum) no call can ever
    /// be proved.
    pub fn new_unchecked(minimum: i8, maximum: i8, value: i8) -> (r: Self)
        requires
            minimum <= value <= maximum,
        ensures
            r == Self::spec_new_unchecked(minimum, maximum, value),
            r.spec_value() == value,
            r.spec_minimum() == minimum,
            r.spec_maximum() == maximum,
    {
        RangedI8 { value, minimum, maximum }
    }

    /// Retrieve the inner value of the type.
    ///
    /// # Remarks
    ///
    /// This is guaranteed to return a value in the range
    /// `minimum..=maximum`.
    pub fn inner(self) -> (r: i8)
        ensures
            r == self.spec_value(),
            self.spec_minimum() <= r <= self.spec_maximum(),
    {
        proof {
            use_type_invariant(&self);
        }
        self.value
    }

    /// Borrow the inner value of the type, which lies in
    /// `minimum..=maximum`.
    pub fn as_ref(&self) -> (r: &i8)
        ensures
            *r == self.spec_value(),
            self.spec_minimum() <= *r <= self.spec_maximum(),
    {
        proof {
            use_type_invariant(self);
        }
        &self.value
    }

    /// The lower bound this value was constructed against.
    pub fn minimum(&self) -> (r: i8)
        ensures
            r == self.spec_minimum(),
    {
        self.minimum
    }

    /// The upper bound this value was constructed against.
    pub fn maximum(&self) -> (r: i8)
        ensures
            r == self.spec_maximum(),
    {
        self.maximum
    }

    /// Render the inner value in base ten, exactly as the underlying
    /// scalar itself is rendered.
    pub fn to_decimal(&self) -> (s: String)
        ensures
            s@ == spec_decimal_int(self.spec_value() as int),
    {
        decimal_i128(self.inner() as i128)
    }

    /// Soundness: checked construction succeeds exactly when the value
    /// lies in `minimum..=maximum`, and on success the stored scalar is
    /// the supplied value, unchanged.
    pub proof fn lemma_soundness(minimum: i8, maximum: i8, value: i8)
        ensures
            Self::spec_new(minimum, maximum, value) is Ok <==> minimum <= value <= maximum,
            Self::spec_new(minimum, maximum, value) is Ok ==> Self::spec_new(
                minimum,
                maximum,
                value,
            )->Ok_0.spec_value() == value,
    {
    }

    /// Precedence: with an unsatisfiable range, checked construction
    /// fails with `InvalidRange` whatever the value, never with
    /// `TooSmall` or `TooLarge`.
    pub proof fn lemma_invalid_range_precedence(minimum: i8, maximum: i8, value: i8)
        requires
            minimum > maximum,
        ensures
            Self::spec_new(minimum, maximum, value) == Err::<Self, RangedError<i8>>(
                (RangedError::InvalidRange { minimum, maximum }),
            ),
    {
    }

    /// Boundary inclusion: both bounds themselves are accepted whenever
    /// the range is satisfiable.
    pub proof fn lemma_boundary_inclusion(minimum: i8, maximum: i8)
        requires
            minimum <= maximum,
        ensures
            Self::spec_new(minimum, maximum, minimum) is Ok,
            Self::spec_new(minimum, maximum, maximum) is Ok,
    {
    }

    /// Off-by-one: when the range holds exactly one value, each
    /// neighbour the representation can hold is rejected with the
    /// matching error.
    pub proof fn lemma_off_by_one(v: i8)
        ensures
            v > i8::MIN ==> Self::spec_new(v, v, (v - 1) as i8) == Err::<Self, RangedError<i8>>(
                (RangedError::TooSmall { value: (v - 1) as i8, minimum: v }),
            ),
            v < i8::MAX ==> Self::spec_new(v, v, (v + 1) as i8) == Err::<Self, RangedError<i8>>(
                (RangedError::TooLarge { value: (v + 1) as i8, maximum: v }),
            ),
    {
    }

    /// Round trip: a value accepted by checked construction is stored
    /// and extracted unchanged, with no clamping or rounding.
    pub proof fn lemma_round_trip(minimum: i8, maximum: i8, value: i8)
        requires
            minimum <= value <= maximum,
        ensures
            Self::spec_new(minimum, maximum, value) is Ok,
            Self::spec_new(minimum, maximum, value)->Ok_0.spec_value() == value,
    {
    }

    /// Contract-only unsafety: unchecked construction with an in-range
    /// value yields exactly the value checked construction would, so
    /// every later read agrees between the two.
    pub proof fn lemma_unchecked_agrees(minimum: i8, maximum: i8, value: i8)
        requires
            minimum <= value <= maximum,
        ensures
            Self::spec_new(minimum, maximum, value) == Ok::<Self, RangedError<i8>>(
                Self::spec_new_unchecked(minimum, maximum, value),
            ),
    {
    }

    /// Bound isolation: values constructed against different ranges are
    /// never equal, whatever scalar they hold, so no comparison can
    /// silently treat one range as another.
    pub proof fn lemma_bound_isolation(a: Self, b: Self)
        requires
            a.spec_minimum() != b.spec_minimum() || a.spec_maximum() != b.spec_maximum(),
        ensures
            a != b,
    {
    }
}


/// A ranged `i16` type with a value between a minimum and a maximum
/// fixed at construction.
#[derive(Debug, Copy, Clone, PartialEq, Eq, PartialOrd, Ord, Hash, Structural)]
pub struct RangedI16 {
    value: i16,
    minimum: i16,
    maximum: i16,
}

impl RangedI16 {
    #[verifier::type_invariant]
    spec fn in_range(self) -> bool {
        self.minimum <= self.value <= self.maximum
    }

    /// The stored scalar, for specifications.
    pub closed spec fn spec_value(self) -> i16 {
        self.value
    }

    /// The lower bound this value was constructed against.
    pub closed spec fn spec_minimum(self) -> i16 {
        self.minimum
    }

    /// The upper bound this value was constructed against.
    pub closed spec fn spec_maximum(self) -> i16 {
        self.maximum
    }

    /// What checked construction returns, as a function of the input:
    /// an unsatisfiable range is reported first, then the value is held
    /// against each bound in turn, and an accepted value is stored
    /// unchanged.
    pub closed spec fn spec_new(minimum: i16, maximum: i16, value: i16) -> Result<
        Self,
        RangedError<i16>,
    > {
        if minimum > maximum {
            Err(RangedError::InvalidRange { minimum, maximum })
        } else if value < minimum {
            Err(RangedError::TooSmall { value, minimum })
        } else if value > maximum {
            Err(RangedError::TooLarge { value, maximum })
        } else {
            Ok(RangedI16 { value, minimum, maximum })
        }
    }

    /// What unchecked construction returns.
    pub closed spec fn spec_new_unchecked(minimum: i16, maximum: i16, value: i16) -> Self {
        RangedI16 { value, minimum, maximum }
    }

    /// Create a new instance of the type, bounded by the given
    /// inclusive range.
    ///
    /// # Parameters
    ///
    /// The value must be in the range `minimum..=maximum`.
    pub fn new(minimum: i16, maximum: i16, value: i16) -> (r: Result<Self, RangedError<i16>>)
        ensures
            r == Self::spec_new(minimum, maximum, value),
            r is Ok <==> minimum <= value <= maximum,
            r is Ok ==> r->Ok_0.spec_value() == value && r->Ok_0.spec_minimum() == minimum
                && r->Ok_0.spec_maximum() == maximum,
            minimum > maximum ==> r == Err::<Self, RangedError<i16>>(
                (RangedError::InvalidRange { minimum, maximum }),
            ),
            minimum <= maximum && value < minimum ==> r == Err::<Self, RangedError<i16>>(
                (RangedError::TooSmall { value, minimum }),
            ),
            minimum <= maximum && value > maximum ==> r == Err::<Self, RangedError<i16>>(
                (RangedError::TooLarge { value, maximum }),
            ),
    {
        if minimum > maximum {
            return Err(RangedError::InvalidRange { minimum, maximum });
        }
        if value < minimum {
            Err(RangedError::TooSmall { value, minimum })
        } else if value > maximum {
            Err(RangedError::TooLarge { value, maximum })
        } else {
            Ok(RangedI16 { value, minimum, maximum })
        }
    }

    /// Create a new instance of the type without a bounds check.
    ///
    /// The caller must prove that the value is in the range
    /// `minimum..=maximum`; no validation happens at runtime, and with
    /// an empty range (minimum greater than maximum) no call can ever
    /// be proved.
    pub fn new_unchecked(minimum: i16, maximum: i16, value: i16) -> (r: Self)
        requires
            minimum <= value <= maximum,
        ensures
            r == Self::spec_new_unchecked(minimum, maximum, value),
            r.spec_value() == value,
            r.spec_minimum() == minimum,
            r.spec_maximum() == maximum,
    {
        RangedI16 { value, minimum, maximum }
    }

    /// Retrieve the inner value of the type.
    ///
    /// # Remarks
    ///
    /// This is guaranteed to return a value in the range
    /// `minimum..=maximum`.
    pub fn inner(self) -> (r: i16)
        ensures
            r == self.spec_value(),
            self.spec_minimum() <= r <= self.spec_maximum(),
    {
        proof {
            use_type_invariant(&self);
        }
        self.value
    }

    /// Borrow the inner value of the type, which lies in
    /// `minimum..=maximum`.
    pub fn as_ref(&self) -> (r: &i16)
        ensures
            *r == self.spec_value(),
            self.spec_minimum() <= *r <= self.spec_maximum(),
    {
        proof {
            use_type_invariant(self);
        }
        &self.value
    }

    /// The lower bound this value was constructed against.
    pub fn minimum(&self) -> (r: i16)
        ensures
            r == self.spec_minimum(),
    {
        self.minimum
    }

    /// The upper bound this value was constructed against.
    pub fn maximum(&self) -> (r: i16)
        ensures
            r == self.spec_maximum(),
    {
        self.maximum
    }

    /// Render the inner value in base ten, exactly as the underlying
    /// scalar itself is rendered.
    pub fn to_decimal(&self) -> (s: String)
        ensures
            s@ == spec_decimal_int(self.spec_value() as int),
    {
        decimal_i128(self.inner() as i128)
    }

    /// Soundness: checked construction succeeds exactly when the value
    /// lies in `minimum..=maximum`, and on success the stored scalar is
    /// the supplied value, unchanged.
    pub proof fn lemma_soundness(minimum: i16, maximum: i16, value: i16)
        ensures
            Self::spec_new(minimum, maximum, value) is Ok <==> minimum <= value <= maximum,
            Self::spec_new(minimum, maximum, value) is Ok ==> Self::spec_new(
                minimum,
                maximum,
                value,
            )->Ok_0.spec_value() == value,
    {
    }

    /// Precedence: with an unsatisfiable range, checked construction
    /// fails with `InvalidRange` whatever the value, never with
    /// `TooSmall` or `TooLarge`.
    pub proof fn lemma_invalid_range_precedence(minimum: i16, maximum: i16, value: i16)
        requires
            minimum > maximum,
        ensures
            Self::spec_new(minimum, maximum, value) == Err::<Self, RangedError<i16>>(
                (RangedError::InvalidRange { minimum, maximum }),
            ),
    {
    }

    /// Boundary inclusion: both bounds themselves are accepted whenever
    /// the range is satisfiable.
    pub proof fn lemma_boundary_inclusion(minimum: i16, maximum: i16)
        requires
            minimum <= maximum,
        ensures
            Self::spec_new(minimum, maximum, minimum) is Ok,
            Self::spec_new(minimum, maximum, maximum) is Ok,
    {
    }

    /// Off-by-one: when the range holds exactly one value, each
    /// neighbour the representation can hold is rejected with the
    /// matching error.
    pub proof fn lemma_off_by_one(v: i16)
        ensures
            v > i16::MIN ==> Self::spec_new(v, v, (v - 1) as i16) == Err::<Self, RangedError<i16>>(
                (RangedError::TooSmall { value: (v - 1) as i16, minimum: v }),
            ),
            v < i16::MAX ==> Self::spec_new(v, v, (v + 1) as i16) == Err::<Self, RangedError<i16>>(
                (RangedError::TooLarge { value: (v + 1) as i16, maximum: v }),
            ),
    {
    }

    /// Round trip: a value accepted by checked construction is stored
    /// and extracted unchanged, with no clamping or rounding.
    pub proof fn lemma_round_trip(minimum: i16, maximum: i16, value: i16)
        requires
            minimum <= value <= maximum,
        ensures
            Self::spec_new(minimum, maximum, value) is Ok,
            Self::spec_new(minimum, maximum, value)->Ok_0.spec_value() == value,
    {
    }

    /// Contract-only unsafety: unchecked construction with an in-range
    /// value yields exactly the value checked construction would, so
    /// every later read agrees between the two.
    pub proof fn lemma_unchecked_agrees(minimum: i16, maximum: i16, value: i16)
        requires
            minimum <= value <= maximum,
        ensures
            Self::spec_new(minimum, maximum, value) == Ok::<Self, RangedError<i16>>(
                Self::spec_new_unchecked(minimum, maximum, value),
            ),
    {
    }

    /// Bound isolation: values constructed against different ranges are
    /// never equal, whatever scalar they hold, so no comparison can
    /// silently treat one range as another.
    pub proof fn lemma_bound_isolation(a: Self, b: Self)
        requires
            a.spec_minimum() != b.spec_minimum() || a.spec_maximum() != b.spec_maximum(),
        ensures
            a != b,
    {
    }
}


/// A ranged `i32` type with a value between a minimum and a maximum
/// fixed at construction.
#[derive(Debug, Copy, Clone, PartialEq, Eq, PartialOrd, Ord, Hash, Structural)]
pub struct RangedI32 {
    value: i32,
    minimum: i32,
    maximum: i32,
}

impl RangedI32 {
    #[verifier::type_invariant]
    spec fn in_range(self) -> bool {
        self.minimum <= self.value <= self.maximum
    }

    /// The stored scalar, for specifications.
    pub closed spec fn spec_value(self) -> i32 {
        self.value
    }

    /// The lower bound this value was constructed against.
    pub closed spec fn spec_minimum(self) -> i32 {
        self.minimum
    }

    /// The upper bound this value was constructed against.
    pub closed spec fn spec_maximum(self) -> i32 {
        self.maximum
    }

    /// What checked construction returns, as a function of the input:
    /// an unsatisfiable range is reported first, then the value is held
    /// against each bound in turn, and an accepted value is stored
    /// unchanged.
    pub closed spec fn spec_new(minimum: i32, maximum: i32, value: i32) -> Result<
        Self,
        RangedError<i32>,
    > {
        if minimum > maximum {
            Err(RangedError::InvalidRange { minimum, maximum })
        } else if value < minimum {
            Err(RangedError::TooSmall { value, minimum })
        } else if value > maximum {
            Err(RangedError::TooLarge { value, maximum })
        } else {
            Ok(RangedI32 { value, minimum, maximum })
        }
    }

    /// What unchecked construction returns.
    pub closed spec fn spec_new_unchecked(minimum: i32, maximum: i32, value: i32) -> Self {
        RangedI32 { value, minimum, maximum }
    }

    /// Create a new instance of the type, bounded by the given
    /// inclusive range.
    ///
    /// # Parameters
    ///
    /// The value must be in the range `minimum..=maximum`.
    pub fn new(minimum: i32, maximum: i32, value: i32) -> (r: Result<Self, RangedError<i32>>)
        ensures
            r == Self::spec_new(minimum, maximum, value),
            r is Ok <==> minimum <= value <= maximum,
            r is Ok ==> r->Ok_0.spec_value() == value && r->Ok_0.spec_minimum() == minimum
                && r->Ok_0.spec_maximum() == maximum,
            minimum > maximum ==> r == Err::<Self, RangedError<i32>>(
                (RangedError::InvalidRange { minimum, maximum }),
            ),
            minimum <= maximum && value < minimum ==> r == Err::<Self, RangedError<i32>>(
                (RangedError::TooSmall { value, minimum }),
            ),
            minimum <= maximum && value > maximum ==> r == Err::<Self, RangedError<i32>>(
                (RangedError::TooLarge { value, maximum }),
            ),
    {
        if minimum > maximum {
            return Err(RangedError::InvalidRange { minimum, maximum });
        }
        if value < minimum {
            Err(RangedError::TooSmall { value, minimum })
        } else if value > maximum {
            Err(RangedError::TooLarge { value, maximum })
        } else {
            Ok(RangedI32 { value, minimum, maximum })
        }
    }

    /// Create a new instance of the type without a bounds check.
    ///
    /// The caller must prove that the value is in the range
    /// `minimum..=maximum`; no validation happens at runtime, and with
    /// an empty range (minimum greater than maximum) no call can ever
    /// be proved.
    pub fn new_unchecked(minimum: i32, maximum: i32, value: i32) -> (r: Self)
        requires
            minimum <= value <= maximum,
        ensures
            r == Self::spec_new_unchecked(minimum, maximum, value),
            r.spec_value() == value,
            r.spec_minimum() == minimum,
            r.spec_maximum() == maximum,
    {
        RangedI32 { value, minimum, maximum }
    }

    /// Retrieve the inner value of the type.
    ///
    /// # Remarks
    ///
    /// This is guaranteed to return a value in the range
    /// `minimum..=maximum`.
    pub fn inner(self) -> (r: i32)
        ensures
            r == self.spec_value(),
            self.spec_minimum() <= r <= self.spec_maximum(),
    {
        proof {
            use_type_invariant(&self);
        }
        self.value
    }

    /// Borrow the inner value of the type, which lies in
    /// `minimum..=maximum`.
    pub fn as_ref(&self) -> (r: &i32)
        ensures
            *r == self.spec_value(),
            self.spec_minimum() <= *r <= self.spec_maximum(),
    {
        proof {
            use_type_invariant(self);
        }
        &self.value
    }

    /// The lower bound this value was constructed against.
    pub fn minimum(&self) -> (r: i32)
        ensures
            r == self.spec_minimum(),
    {
        self.minimum
    }

    /// The upper bound this value was constructed against.
    pub fn maximum(&self) -> (r: i32)
        ensures
            r == self.spec_maximum(),
    {
        self.maximum
    }

    /// Render the inner value in base ten, exactly as the underlying
    /// scalar itself is rendered.
    pub fn to_decimal(&self) -> (s: String)
        ensures
            s@ == spec_decimal_int(self.spec_value() as int),
    {
        decimal_i128(self.inner() as i128)
    }

    /// Soundness: checked construction succeeds exactly when the value
    /// lies in `minimum..=maximum`, and on success the stored scalar is
    /// the supplied value, unchanged.
    pub proof fn lemma_soundness(minimum: i32, maximum: i32, value: i32)
        ensures
            Self::spec_new(minimum, maximum, value) is Ok <==> minimum <= value <= maximum,
            Self::spec_new(minimum, maximum, value) is Ok ==> Self::spec_new(
                minimum,
                maximum,
                value,
            )->Ok_0.spec_value() == value,
    {
    }

    /// Precedence: with an unsatisfiable range, checked construction
    /// fails with `InvalidRange` whatever the value, never with
    /// `TooSmall` or `TooLarge`.
    pub proof fn lemma_invalid_range_precedence(minimum: i32, maximum: i32, value: i32)
        requires
            minimum > maximum,
        ensures
            Self::spec_new(minimum, maximum, value) == Err::<Self, RangedError<i32>>(
                (RangedError::InvalidRange { minimum, maximum }),
            ),
    {
    }

    /// Boundary inclusion: both bounds themselves are accepted whenever
    /// the range is satisfiable.
    pub proof fn lemma_boundary_inclusion(minimum: i32, maximum: i32)
        requires
            minimum <= maximum,
        ensures
            Self::spec_new(minimum, maximum, minimum) is Ok,
            Self::spec_new(minimum, maximum, maximum) is Ok,
    {
    }

    /// Off-by-one: when the range holds exactly one value, each
    /// neighbour the representation can hold is rejected with the
    /// matching error.
    pub proof fn lemma_off_by_one(v: i32)
        ensures
            v > i32::MIN ==> Self::spec_new(v, v, (v - 1) as i32) == Err::<Self, RangedError<i32>>(
                (RangedError::TooSmall { value: (v - 1) as i32, minimum: v }),
            ),
            v < i32::MAX ==> Self::spec_new(v, v, (v + 1) as i32) == Err::<Self, RangedError<i32>>(
                (RangedError::TooLarge { value: (v + 1) as i32, maximum: v }),
            ),
    {
    }

    /// Round trip: a value accepted by checked construction is stored
    /// and extracted unchanged, with no clamping or rounding.
    pub proof fn lemma_round_trip(minimum: i32, maximum: i32, value: i32)
        requires
            minimum <= value <= maximum,
        ensures
            Self::spec_new(minimum, maximum, value) is Ok,
            Self::spec_new(minimum, maximum, value)->Ok_0.spec_value() == value,
    {
    }

    /// Contract-only unsafety: unchecked construction with an in-range
    /// value yields exactly the value checked construction would, so
    /// every later read agrees between the two.
    pub proof fn lemma_unchecked_agrees(minimum: i32, maximum: i32, value: i32)
        requires
            minimum <= value <= maximum,
        ensures
            Self::spec_new(minimum, maximum, value) == Ok::<Self, RangedError<i32>>(
                Self::spec_new_unchecked(minimum, maximum, value),
            ),
    {
    }

    /// Bound isolation: values constructed against different ranges are
    /// never equal, whatever scalar they hold, so no comparison can
    /// silently treat one range as another.
    pub proof fn lemma_bound_isolation(a: Self, b: Self)
        requires
            a.spec_minimum() != b.spec_minimum() || a.spec_maximum() != b.spec_maximum(),
        ensures
            a != b,
    {
    }
}


/// A ranged `i64` type with a value between a minimum and a maximum
/// fixed at construction.
#[derive(Debug, Copy, Clone, PartialEq, Eq, PartialOrd, Ord, Hash, Structural)]
pub struct RangedI64 {
    value: i64,
    minimum: i64,
    maximum: i64,
}

impl RangedI64 {
    #[verifier::type_invariant]
    spec fn in_range(self) -> bool {
        self.minimum <= self.value <= self.maximum
    }

    /// The stored scalar, for specifications.
    pub closed spec fn spec_value(self) -> i64 {
        self.value
    }

    /// The lower bound this value was constructed against.
    pub closed spec fn spec_minimum(self) -> i64 {
        self.minimum
    }

    /// The upper bound this value was constructed against.
    pub closed spec fn spec_maximum(self) -> i64 {
        self.maximum
    }

    /// What checked construction returns, as a function of the input:
    /// an unsatisfiable range is reported first, then the value is held
    /// against each bound in turn, and an accepted value is stored
    /// unchanged.
    pub closed spec fn spec_new(minimum: i64, maximum: i64, value: i64) -> Result<
        Self,
        RangedError<i64>,
    > {
        if minimum > maximum {
            Err(RangedError::InvalidRange { minimum, maximum })
        } else if value < minimum {
            Err(RangedError::TooSmall { value, minimum })
        } else if value > maximum {
            Err(RangedError::TooLarge { value, maximum })
        } else {
            Ok(RangedI64 { value, minimum, maximum })
        }
    }

    /// What unchecked construction returns.
    pub closed spec fn spec_new_unchecked(minimum: i64, maximum: i64, value: i64) -> Self {
        RangedI64 { value, minimum, maximum }
    }

    /// Create a new instance of the type, bounded by the given
    /// inclusive range.
    ///
    /// # Parameters
    ///
    /// The value must be in the range `minimum..=maximum`.
    pub fn new(minimum: i64, maximum: i64, value: i64) -> (r: Result<Self, RangedError<i64>>)
        ensures
            r == Self::spec_new(minimum, maximum, value),
            r is Ok <==> minimum <= value <= maximum,
            r is Ok ==> r->Ok_0.spec_value() == value && r->Ok_0.spec_minimum() == minimum
                && r->Ok_0.spec_maximum() == maximum,
            minimum > maximum ==> r == Err::<Self, RangedError<i64>>(
                (RangedError::InvalidRange { minimum, maximum }),
            ),
            minimum <= maximum && value < minimum ==> r == Err::<Self, RangedError<i64>>(
                (RangedError::TooSmall { value, minimum }),
            ),
            minimum <= maximum && value > maximum ==> r == Err::<Self, RangedError<i64>>(
                (RangedError::TooLarge { value, maximum }),
            ),
    {
        if minimum > maximum {
            return Err(RangedError::InvalidRange { minimum, maximum });
        }
        if value < minimum {
            Err(RangedError::TooSmall { value, minimum })
        } else if value > maximum {
            Err(RangedError::TooLarge { value, maximum })
        } else {
            Ok(RangedI64 { value, minimum, maximum })
        }
    }

    /// Create a new instance of the type without a bounds check.
    ///
    /// The caller must prove that the value is in the range
    /// `minimum..=maximum`; no validation happens at runtime, and with
    /// an empty range (minimum greater than maximum) no call can ever
    /// be proved.
    pub fn new_unchecked(minimum: i64, maximum: i64, value: i64) -> (r: Self)
        requires
            minimum <= value <= maximum,
        ensures
            r == Self::spec_new_unchecked(minimum, maximum, value),
            r.spec_value() == value,
            r.spec_minimum() == minimum,
            r.spec_maximum() == maximum,
    {
        RangedI64 { value, minimum, maximum }
    }

    /// Retrieve the inner value of the type.
    ///
    /// # Remarks
    ///
    /// This is guaranteed to return a value in the range
    /// `minimum..=maximum`.
    pub fn inner(self) -> (r: i64)
        ensures
            r == self.spec_value(),
            self.spec_minimum() <= r <= self.spec_maximum(),
    {
        proof {
            use_type_invariant(&self);
        }
        self.value
    }

    /// Borrow the inner value of the type, which lies in
    /// `minimum..=maximum`.
    pub fn as_ref(&self) -> (r: &i64)
        ensures
            *r == self.spec_value(),
            self.spec_minimum() <= *r <= self.spec_maximum(),
    {
        proof {
            use_type_invariant(self);
        }
        &self.value
    }

    /// The lower bound this value was constructed against.
    pub fn minimum(&self) -> (r: i64)
        ensures
            r == self.spec_minimum(),
    {
        self.minimum
    }

    /// The upper bound this value was constructed against.
    pub fn maximum(&self) -> (r: i64)
        ensures
            r == self.spec_maximum(),
    {
        self.maximum
    }

    /// Render the inner value in base ten, exactly as the underlying
    /// scalar itself is rendered.
    pub fn to_decimal(&self) -> (s: String)
        ensures
            s@ == spec_decimal_int(self.spec_value() as int),
    {
        decimal_i128(self.inner() as i128)
    }

    /// Soundness: checked construction succeeds exactly when the value
    /// lies in `minimum..=maximum`, and on success the stored scalar is
    /// the supplied value, unchanged.
    pub proof fn lemma_soundness(minimum: i64, maximum: i64, value: i64)
        ensures
            Self::spec_new(minimum, maximum, value) is Ok <==> minimum <= value <= maximum,
            Self::spec_new(minimum, maximum, value) is Ok ==> Self::spec_new(
                minimum,
                maximum,
                value,
            )->Ok_0.spec_value() == value,
    {
    }

    /// Precedence: with an unsatisfiable range, checked construction
    /// fails with `InvalidRange` whatever the value, never with
    /// `TooSmall` or `TooLarge`.
    pub proof fn lemma_invalid_range_precedence(minimum: i64, maximum: i64, value: i64)
        requires
            minimum > maximum,
        ensures
            Self::spec_new(minimum, maximum, value) == Err::<Self, RangedError<i64>>(
                (RangedError::InvalidRange { minimum, maximum }),
            ),
    {
    }

    /// Boundary inclusion: both bounds themselves are accepted whenever
    /// the range is satisfiable.
    pub proof fn lemma_boundary_inclusion(minimum: i64, maximum: i64)
        requires
            minimum <= maximum,
        ensures
            Self::spec_new(minimum, maximum, minimum) is Ok,
            Self::spec_new(minimum, maximum, maximum) is Ok,
    {
    }

    /// Off-by-one: when the range holds exactly one value, each
    /// neighbour the representation can hold is rejected with the
    /// matching error.
    pub proof fn lemma_off_by_one(v: i64)
        ensures
            v > i64::MIN ==> Self::spec_new(v, v, (v - 1) as i64) == Err::<Self, RangedError<i64>>(
                (RangedError::TooSmall { value: (v - 1) as i64, minimum: v }),
            ),
            v < i64::MAX ==> Self::spec_new(v, v, (v + 1) as i64) == Err::<Self, RangedError<i64>>(
                (RangedError::TooLarge { value: (v + 1) as i64, maximum: v }),
            ),
    {
    }

    /// Round trip: a value accepted by checked construction is stored
    /// and extracted unchanged, with no clamping or rounding.
    pub proof fn lemma_round_trip(minimum: i64, maximum: i64, value: i64)
        requires
            minimum <= value <= maximum,
        ensures
            Self::spec_new(minimum, maximum, value) is Ok,
            Self::spec_new(minimum, maximum, value)->Ok_0.spec_value() == value,
    {
    }

    /// Contract-only unsafety: unchecked construction with an in-range
    /// value yields exactly the value checked construction would, so
    /// every later read agrees between the two.
    pub proof fn lemma_unchecked_agrees(minimum: i64, maximum: i64, value: i64)
        requires
            minimum <= value <= maximum,
        ensures
            Self::spec_new(minimum, maximum, value) == Ok::<Self, RangedError<i64>>(
                Self::spec_new_unchecked(minimum, maximum, value),
            ),
    {
    }

    /// Bound isolation: values constructed against different ranges are
    /// never equal, whatever scalar they hold, so no comparison can
    /// silently treat one range as another.
    pub proof fn lemma_bound_isolation(a: Self, b: Self)
        requires
            a.spec_minimum() != b.spec_minimum() || a.spec_maximum() != b.spec_maximum(),
        ensures
            a != b,
    {
    }
}


/// A ranged `i128` type with a value between a minimum and a maximum
/// fixed at construction.
#[derive(Debug, Copy, Clone, PartialEq, Eq, PartialOrd, Ord, Hash, Structural)]
pub struct RangedI128 {
    value: i128,
    minimum: i128,
    maximum: i128,
}

impl RangedI128 {
    #[verifier::type_invariant]
    spec fn in_range(self) -> bool {
        self.minimum <= self.value <= self.maximum
    }

    /// The stored scalar, for specifications.
    pub closed spec fn spec_value(self) -> i128 {
        self.value
    }

    /// The lower bound this value was constructed against.
    pub closed spec fn spec_minimum(self) -> i128 {
        self.minimum
    }

    /// The upper bound this value was constructed against.
    pub closed spec fn spec_maximum(self) -> i128 {
        self.maximum
    }

    /// What checked construction returns, as a function of the input:
    /// an unsatisfiable range is reported first, then the value is held
    /// against each bound in turn, and an accepted value is stored
    /// unchanged.
    pub closed spec fn spec_new(minimum: i128, maximum: i128, value: i128) -> Result<
        Self,
        RangedError<i128>,
    > {
        if minimum > maximum {
            Err(RangedError::InvalidRange { minimum, maximum })
        } else if value < minimum {
            Err(RangedError::TooSmall { value, minimum })
        } else if value > maximum {
            Err(RangedError::TooLarge { value, maximum })
        } else {
            Ok(RangedI128 { value, minimum, maximum })
        }
    }

    /// What unchecked construction returns.
    pub closed spec fn spec_new_unchecked(minimum: i128, maximum: i128, value: i128) -> Self {
        RangedI128 { value, minimum, maximum }
    }

    /// Create a new instance of the type, bounded by the given
    /// inclusive range.
    ///
    /// # Parameters
    ///
    /// The value must be in the range `minimum..=maximum`.
    pub fn new(minimum: i128, maximum: i128, value: i128) -> (r: Result<Self, RangedError<i128>>)
        ensures
            r == Self::spec_new(minimum, maximum, value),
            r is Ok <==> minimum <= value <= maximum,
            r is Ok ==> r->Ok_0.spec_value() == value && r->Ok_0.spec_minimum() == minimum
                && r->Ok_0.spec_maximum() == maximum,
            minimum > maximum ==> r == Err::<Self, RangedError<i128>>(
                (RangedError::InvalidRange { minimum, maximum }),
            ),
            minimum <= maximum && value < minimum ==> r == Err::<Self, RangedError<i128>>(
                (RangedError::TooSmall { value, minimum }),
            ),
            minimum <= maximum && value > maximum ==> r == Err::<Self, RangedError<i128>>(
                (RangedError::TooLarge { value, maximum }),
            ),
    {
        if minimum > maximum {
            return Err(RangedError::InvalidRange { minimum, maximum });
        }
        if value < minimum {
            Err(RangedError::TooSmall { value, minimum })
        } else if value > maximum {
            Err(RangedError::TooLarge { value, maximum })
        } else {
            Ok(RangedI128 { value, minimum, maximum })
        }
    }

    /// Create a new instance of the type without a bounds check.
    ///
    /// The caller must prove that the value is in the range
    /// `minimum..=maximum`; no validation happens at runtime, and with
    /// an empty range (minimum greater than maximum) no call can ever
    /// be proved.
    pub fn new_unchecked(minimum: i128, maximum: i128, value: i128) -> (r: Self)
        requires
            minimum <= value <= maximum,
        ensures
            r == Self::spec_new_unchecked(minimum, maximum, value),
            r.spec_value() == value,
            r.spec_minimum() == minimum,
            r.spec_maximum() == maximum,
    {
        RangedI128 { value, minimum, maximum }
    }

    /// Retrieve the inner value of the type.
    ///
    /// # Remarks
    ///
    /// This is guaranteed to return a value in the range
    /// `minimum..=maximum`.
    pub fn inner(self) -> (r: i128)
        ensures
            r == self.spec_value(),
            self.spec_minimum() <= r <= self.spec_maximum(),
    {
        proof {
            use_type_invariant(&self);
        }
        self.value
    }

    /// Borrow the inner value of the type, which lies in
    /// `minimum..=maximum`.
    pub fn as_ref(&self) -> (r: &i128)
        ensures
            *r == self.spec_value(),
            self.spec_minimum() <= *r <= self.spec_maximum(),
    {
        proof {
            use_type_invariant(self);
        }
        &self.value
    }

    /// The lower bound this value was constructed against.
    pub fn minimum(&self) -> (r: i128)
        ensures
            r == self.spec_minimum(),
    {
        self.minimum
    }

    /// The upper bound this value was constructed against.
    pub fn maximum(&self) -> (r: i128)
        ensures
            r == self.spec_maximum(),
    {
        self.maximum
    }

    /// Render the inner value in base ten, exactly as the underlying
    /// scalar itself is rendered.
    pub fn to_decimal(&self) -> (s: String)
        ensures
            s@ == spec_decimal_int(self.spec_value() as int),
    {
        decimal_i128(self.inner() as i128)
    }

    /// Soundness: checked construction succeeds exactly when the value
    /// lies in `minimum..=maximum`, and on success the stored scalar is
    /// the supplied value, unchanged.
    pub proof fn lemma_soundness(minimum: i128, maximum: i128, value: i128)
        ensures
            Self::spec_new(minimum, maximum, value) is Ok <==> minimum <= value <= maximum,
            Self::spec_new(minimum, maximum, value) is Ok ==> Self::spec_new(
                minimum,
                maximum,
                value,
            )->Ok_0.spec_value() == value,
    {
    }

    /// Precedence: with an unsatisfiable range, checked construction
    /// fails with `InvalidRange` whatever the value, never with
    /// `TooSmall` or `TooLarge`.
    pub proof fn lemma_invalid_range_precedence(minimum: i128, maximum: i128, value: i128)
        requires
            minimum > maximum,
        ensures
            Self::spec_new(minimum, maximum, value) == Err::<Self, RangedError<i128>>(
                (RangedError::InvalidRange { minimum, maximum }),
            ),
    {
    }

    /// Boundary inclusion: both bounds themselves are accepted whenever
    /// the range is satisfiable.
    pub proof fn lemma_boundary_inclusion(minimum: i128, maximum: i128)
        requires
            minimum <= maximum,
        ensures
            Self::spec_new(minimum, maximum, minimum) is Ok,
            Self::spec_new(minimum, maximum, maximum) is Ok,
    {
    }

    /// Off-by-one: when the range holds exactly one value, each
    /// neighbour the representation can hold is rejected with the
    /// matching error.
    pub proof fn lemma_off_by_one(v: i128)
        ensures
            v > i128::MIN ==> Self::spec_new(v, v, (v - 1) as i128) == Err::<Self, RangedError<i128>>(
                (RangedError::TooSmall { value: (v - 1) as i128, minimum: v }),
            ),
            v < i128::MAX ==> Self::spec_new(v, v, (v + 1) as i128) == Err::<Self, RangedError<i128>>(
                (RangedError::TooLarge { value: (v + 1) as i128, maximum: v }),
            ),
    {
    }

    /// Round trip: a value accepted by checked construction is stored
    /// and extracted unchanged, with no clamping or rounding.
    pub proof fn lemma_round_trip(minimum: i128, maximum: i128, value: i128)
        requires
            minimum <= value <= maximum,
        ensures
            Self::spec_new(minimum, maximum, value) is Ok,
            Self::spec_new(minimum, maximum, value)->Ok_0.spec_value() == value,
    {
    }

    /// Contract-only unsafety: unchecked construction with an in-range
    /// value yields exactly the value checked construction would, so
    /// every later read agrees between the two.
    pub proof fn lemma_unchecked_agrees(minimum: i128, maximum: i128, value: i128)
        requires
            minimum <= value <= maximum,
        ensures
            Self::spec_new(minimum, maximum, value) == Ok::<Self, RangedError<i128>>(
                Self::spec_new_unchecked(minimum, maximum, value),
            ),
    {
    }

    /// Bound isolation: values constructed against different ranges are
    /// never equal, whatever scalar they hold, so no comparison can
    /// silently treat one range as another.
    pub proof fn lemma_bound_isolation(a: Self, b: Self)
        requires
            a.spec_minimum() != b.spec_minimum() || a.spec_maximum() != b.spec_maximum(),
        ensures
            a != b,
    {
    }
}

} // verus!
