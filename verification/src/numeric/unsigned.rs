//! Ranged unsigned integer types.
//!
//! The bounds are const generic parameters, so they are part of the
//! type's identity: two different ranges over the same width are two
//! different, mutually incompatible types, and no operation can move a
//! value from one range to another without going through construction.

use vstd::prelude::*;

use crate::numeric::RangedError;
use crate::render::{decimal_u128, spec_decimal_nat};

verus! {

/// A ranged `u8` type with a value between `MIN` and `MAX`.
#[derive(Debug, Copy, Clone, PartialEq, Eq, PartialOrd, Ord, Hash)]
pub struct RangedU8<const MIN: u8, const MAX: u8> {
    value: u8,
}

impl<const MIN: u8, const MAX: u8> RangedU8<MIN, MAX> {
    #[verifier::type_invariant]
    spec fn in_range(self) -> bool {
        MIN <= self.value <= MAX
    }

    /// The stored scalar, for specifications.
    pub closed spec fn spec_value(self) -> u8 {
        self.value
    }

    /// What checked construction returns, as a function of the input:
    /// an unsatisfiable range is reported first, then the value is held
    /// against each bound in turn, and an accepted value is stored
    /// unchanged.
    pub closed spec fn spec_new(value: u8) -> Result<Self, RangedError<u8>> {
        if MIN > MAX {
            Err(RangedError::InvalidRange { minimum: MIN, maximum: MAX })
        } else if value < MIN {
            Err(RangedError::TooSmall { value, minimum: MIN })
        } else if value > MAX {
            Err(RangedError::TooLarge { value, maximum: MAX })
        } else {
            Ok(RangedU8 { value })
        }
    }

    /// What unchecked construction returns.
    pub closed spec fn spec_new_unchecked(value: u8) -> Self {
        RangedU8 { value }
    }

    /// Create a new instance of the type.
    ///
    /// # Parameters
    ///
    /// The value must be in the range `MIN..=MAX`.
    pub fn new(value: u8) -> (r: Result<Self, RangedError<u8>>)
        ensures
            r == Self::spec_new(value),
            r is Ok <==> MIN <= value <= MAX,
            r is Ok ==> r->Ok_0.spec_value() == value,
            MIN > MAX ==> r == Err::<Self, RangedError<u8>>(
                (RangedError::InvalidRange { minimum: MIN, maximum: MAX }),
            ),
            MIN <= MAX && value < MIN ==> r == Err::<Self, RangedError<u8>>(
                (RangedError::TooSmall { value, minimum: MIN }),
            ),
            MIN <= MAX && value > MAX ==> r == Err::<Self, RangedError<u8>>(
                (RangedError::TooLarge { value, maximum: MAX }),
            ),
    {
        if MIN > MAX {
            return Err(RangedError::InvalidRange { minimum: MIN, maximum: MAX });
        }
        if value < MIN {
            Err(RangedError::TooSmall { value, minimum: MIN })
        } else if value > MAX {
            Err(RangedError::TooLarge { value, maximum: MAX })
        } else {
            Ok(RangedU8 { value })
        }
    }

    /// Create a new instance of the type without a bounds check.
    ///
    /// The caller must prove that the value is in the range `MIN..=MAX`;
    /// no validation happens at runtime, and with an empty range (`MIN`
    /// greater than `MAX`) no call can ever be proved.
    pub fn new_unchecked(value: u8) -> (r: Self)
        requires
            MIN <= value <= MAX,
        ensures
            r == Self::spec_new_unchecked(value),
            r.spec_value() == value,
    {
        RangedU8 { value }
    }

    /// Retrieve the inner value of the type.
    ///
    /// # Remarks
    ///
    /// This is guaranteed to return a value in the range `MIN..=MAX`.
    pub fn inner(self) -> (r: u8)
        ensures
            r == self.spec_value(),
            MIN <= r <= MAX,
    {
        proof {
            use_type_invariant(&self);
        }
        self.value
    }

    /// Borrow the inner value of the type, which lies in `MIN..=MAX`.
    pub fn as_ref(&self) -> (r: &u8)
        ensures
            *r == self.spec_value(),
            MIN <= *r <= MAX,
    {
        proof {
            use_type_invariant(self);
        }
        &self.value
    }

    /// Render the inner value in base ten, exactly as the underlying
    /// scalar itself is rendered.
    pub fn to_decimal(&self) -> (s: String)
        ensures
            s@ == spec_decimal_nat(self.spec_value() as nat),
    {
        decimal_u128(self.inner() as u128)
    }

    /// Soundness: checked construction succeeds exactly when the value
    /// lies in `MIN..=MAX`, and on success the stored scalar is the
    /// supplied value, unchanged.
    pub proof fn lemma_soundness(value: u8)
        ensures
            Self::spec_new(value) is Ok <==> MIN <= value <= MAX,
            Self::spec_new(value) is Ok ==> Self::spec_new(value)->Ok_0.spec_value() == value,
    {
    }

    /// Precedence: with an unsatisfiable range, checked construction
    /// fails with `InvalidRange` whatever the value, never with
    /// `TooSmall` or `TooLarge`.
    pub proof fn lemma_invalid_range_precedence(value: u8)
        requires
            MIN > MAX,
        ensures
            Self::spec_new(value) == Err::<Self, RangedError<u8>>(
                (RangedError::InvalidRange { minimum: MIN, maximum: MAX }),
            ),
    {
    }

    /// Boundary inclusion: both bounds themselves are accepted whenever
    /// the range is satisfiable.
    pub proof fn lemma_boundary_inclusion()
        requires
            MIN <= MAX,
        ensures
            Self::spec_new(MIN) is Ok,
            Self::spec_new(MAX) is Ok,
    {
    }

    /// Off-by-one: when the range holds exactly one value, each
    /// neighbour the representation can hold is rejected with the
    /// matching error.
    pub proof fn lemma_off_by_one()
        requires
            MIN == MAX,
        ensures
            MIN > 0 ==> Self::spec_new((MIN - 1) as u8) == Err::<Self, RangedError<u8>>(
                (RangedError::TooSmall { value: (MIN - 1) as u8, minimum: MIN }),
            ),
            MAX < u8::MAX ==> Self::spec_new((MAX + 1) as u8) == Err::<Self, RangedError<u8>>(
                (RangedError::TooLarge { value: (MAX + 1) as u8, maximum: MAX }),
            ),
    {
    }

    /// Round trip: a value accepted by checked construction is stored
    /// and extracted unchanged, with no clamping or rounding.
    pub proof fn lemma_round_trip(value: u8)
        requires
            MIN <= value <= MAX,
        ensures
            Self::spec_new(value) is Ok,
            Self::spec_new(value)->Ok_0.spec_value() == value,
    {
    }

    /// Contract-only unsafety: unchecked construction with an in-range
    /// value yields exactly the value checked construction would, so
    /// every later read agrees between the two.
    pub proof fn lemma_unchecked_agrees(value: u8)
        requires
            MIN <= value <= MAX,
        ensures
            Self::spec_new(value) == Ok::<Self, RangedError<u8>>(Self::spec_new_unchecked(value)),
    {
    }
}


/// A ranged `u16` type with a value between `MIN` and `MAX`.
#[derive(Debug, Copy, Clone, PartialEq, Eq, PartialOrd, Ord, Hash)]
pub struct RangedU16<const MIN: u16, const MAX: u16> {
    value: u16,
}

impl<const MIN: u16, const MAX: u16> RangedU16<MIN, MAX> {
    #[verifier::type_invariant]
    spec fn in_range(self) -> bool {
        MIN <= self.value <= MAX
    }

    /// The stored scalar, for specifications.
    pub closed spec fn spec_value(self) -> u16 {
        self.value
    }

    /// What checked construction returns, as a function of the input:
    /// an unsatisfiable range is reported first, then the value is held
    /// against each bound in turn, and an accepted value is stored
    /// unchanged.
    pub closed spec fn spec_new(value: u16) -> Result<Self, RangedError<u16>> {
        if MIN > MAX {
            Err(RangedError::InvalidRange { minimum: MIN, maximum: MAX })
        } else if value < MIN {
            Err(RangedError::TooSmall { value, minimum: MIN })
        } else if value > MAX {
            Err(RangedError::TooLarge { value, maximum: MAX })
        } else {
            Ok(RangedU16 { value })
        }
    }

    /// What unchecked construction returns.
    pub closed spec fn spec_new_unchecked(value: u16) -> Self {
        RangedU16 { value }
    }

    /// Create a new instance of the type.
    ///
    /// # Parameters
    ///
    /// The value must be in the range `MIN..=MAX`.
    pub fn new(value: u16) -> (r: Result<Self, RangedError<u16>>)
        ensures
            r == Self::spec_new(value),
            r is Ok <==> MIN <= value <= MAX,
            r is Ok ==> r->Ok_0.spec_value() == value,
            MIN > MAX ==> r == Err::<Self, RangedError<u16>>(
                (RangedError::InvalidRange { minimum: MIN, maximum: MAX }),
            ),
            MIN <= MAX && value < MIN ==> r == Err::<Self, RangedError<u16>>(
                (RangedError::TooSmall { value, minimum: MIN }),
            ),
            MIN <= MAX && value > MAX ==> r == Err::<Self, RangedError<u16>>(
                (RangedError::TooLarge { value, maximum: MAX }),
            ),
    {
        if MIN > MAX {
            return Err(RangedError::InvalidRange { minimum: MIN, maximum: MAX });
        }
        if value < MIN {
            Err(RangedError::TooSmall { value, minimum: MIN })
        } else if value > MAX {
            Err(RangedError::TooLarge { value, maximum: MAX })
        } else {
            Ok(RangedU16 { value })
        }
    }

    /// Create a new instance of the type without a bounds check.
    ///
    /// The caller must prove that the value is in the range `MIN..=MAX`;
    /// no validation happens at runtime, and with an empty range (`MIN`
    /// greater than `MAX`) no call can ever be proved.
    pub fn new_unchecked(value: u16) -> (r: Self)
        requires
            MIN <= value <= MAX,
        ensures
            r == Self::spec_new_unchecked(value),
            r.spec_value() == value,
    {
        RangedU16 { value }
    }

    /// Retrieve the inner value of the type.
    ///
    /// # Remarks
    ///
    /// This is guaranteed to return a value in the range `MIN..=MAX`.
    pub fn inner(self) -> (r: u16)
        ensures
            r == self.spec_value(),
            MIN <= r <= MAX,
    {
        proof {
            use_type_invariant(&self);
        }
        self.value
    }

    /// Borrow the inner value of the type, which lies in `MIN..=MAX`.
    pub fn as_ref(&self) -> (r: &u16)
        ensures
            *r == self.spec_value(),
            MIN <= *r <= MAX,
    {
        proof {
            use_type_invariant(self);
        }
        &self.value
    }

    /// Render the inner value in base ten, exactly as the underlying
    /// scalar itself is rendered.
    pub fn to_decimal(&self) -> (s: String)
        ensures
            s@ == spec_decimal_nat(self.spec_value() as nat),
    {
        decimal_u128(self.inner() as u128)
    }

    /// Soundness: checked construction succeeds exactly when the value
    /// lies in `MIN..=MAX`, and on success the stored scalar is the
    /// supplied value, unchanged.
    pub proof fn lemma_soundness(value: u16)
        ensures
            Self::spec_new(value) is Ok <==> MIN <= value <= MAX,
            Self::spec_new(value) is Ok ==> Self::spec_new(value)->Ok_0.spec_value() == value,
    {
    }

    /// Precedence: with an unsatisfiable range, checked construction
    /// fails with `InvalidRange` whatever the value, never with
    /// `TooSmall` or `TooLarge`.
    pub proof fn lemma_invalid_range_precedence(value: u16)
        requires
            MIN > MAX,
        ensures
            Self::spec_new(value) == Err::<Self, RangedError<u16>>(
                (RangedError::InvalidRange { minimum: MIN, maximum: MAX }),
            ),
    {
    }

    /// Boundary inclusion: both bounds themselves are accepted whenever
    /// the range is satisfiable.
    pub proof fn lemma_boundary_inclusion()
        requires
            MIN <= MAX,
        ensures
            Self::spec_new(MIN) is Ok,
            Self::spec_new(MAX) is Ok,
    {
    }

    /// Off-by-one: when the range holds exactly one value, each
    /// neighbour the representation can hold is rejected with the
    /// matching error.
    pub proof fn lemma_off_by_one()
        requires
            MIN == MAX,
        ensures
            MIN > 0 ==> Self::spec_new((MIN - 1) as u16) == Err::<Self, RangedError<u16>>(
                (RangedError::TooSmall { value: (MIN - 1) as u16, minimum: MIN }),
            ),
            MAX < u16::MAX ==> Self::spec_new((MAX + 1) as u16) == Err::<Self, RangedError<u16>>(
                (RangedError::TooLarge { value: (MAX + 1) as u16, maximum: MAX }),
            ),
    {
    }

    /// Round trip: a value accepted by checked construction is stored
    /// and extracted unchanged, with no clamping or rounding.
    pub proof fn lemma_round_trip(value: u16)
        requires
            MIN <= value <= MAX,
        ensures
            Self::spec_new(value) is Ok,
            Self::spec_new(value)->Ok_0.spec_value() == value,
    {
    }

    /// Contract-only unsafety: unchecked construction with an in-range
    /// value yields exactly the value checked construction would, so
    /// every later read agrees between the two.
    pub proof fn lemma_unchecked_agrees(value: u16)
        requires
            MIN <= value <= MAX,
        ensures
            Self::spec_new(value) == Ok::<Self, RangedError<u16>>(Self::spec_new_unchecked(value)),
    {
    }
}


/// A ranged `u32` type with a value between `MIN` and `MAX`.
#[derive(Debug, Copy, Clone, PartialEq, Eq, PartialOrd, Ord, Hash)]
pub struct RangedU32<const MIN: u32, const MAX: u32> {
    value: u32,
}

impl<const MIN: u32, const MAX: u32> RangedU32<MIN, MAX> {
    #[verifier::type_invariant]
    spec fn in_range(self) -> bool {
        MIN <= self.value <= MAX
    }

    /// The stored scalar, for specifications.
    pub closed spec fn spec_value(self) -> u32 {
        self.value
    }

    /// What checked construction returns, as a function of the input:
    /// an unsatisfiable range is reported first, then the value is held
    /// against each bound in turn, and an accepted value is stored
    /// unchanged.
    pub closed spec fn spec_new(value: u32) -> Result<Self, RangedError<u32>> {
        if MIN > MAX {
            Err(RangedError::InvalidRange { minimum: MIN, maximum: MAX })
        } else if value < MIN {
            Err(RangedError::TooSmall { value, minimum: MIN })
        } else if value > MAX {
            Err(RangedError::TooLarge { value, maximum: MAX })
        } else {
            Ok(RangedU32 { value })
        }
    }

    /// What unchecked construction returns.
    pub closed spec fn spec_new_unchecked(value: u32) -> Self {
        RangedU32 { value }
    }

    /// Create a new instance of the type.
    ///
    /// # Parameters
    ///
    /// The value must be in the range `MIN..=MAX`.
    pub fn new(value: u32) -> (r: Result<Self, RangedError<u32>>)
        ensures
            r == Self::spec_new(value),
            r is Ok <==> MIN <= value <= MAX,
            r is Ok ==> r->Ok_0.spec_value() == value,
            MIN > MAX ==> r == Err::<Self, RangedError<u32>>(
                (RangedError::InvalidRange { minimum: MIN, maximum: MAX }),
            ),
            MIN <= MAX && value < MIN ==> r == Err::<Self, RangedError<u32>>(
                (RangedError::TooSmall { value, minimum: MIN }),
            ),
            MIN <= MAX && value > MAX ==> r == Err::<Self, RangedError<u32>>(
                (RangedError::TooLarge { value, maximum: MAX }),
            ),
    {
        if MIN > MAX {
            return Err(RangedError::InvalidRange { minimum: MIN, maximum: MAX });
        }
        if value < MIN {
            Err(RangedError::TooSmall { value, minimum: MIN })
        } else if value > MAX {
            Err(RangedError::TooLarge { value, maximum: MAX })
        } else {
            Ok(RangedU32 { value })
        }
    }

    /// Create a new instance of the type without a bounds check.
    ///
    /// The caller must prove that the value is in the range `MIN..=MAX`;
    /// no validation happens at runtime, and with an empty range (`MIN`
    /// greater than `MAX`) no call can ever be proved.
    pub fn new_unchecked(value: u32) -> (r: Self)
        requires
            MIN <= value <= MAX,
        ensures
            r == Self::spec_new_unchecked(value),
            r.spec_value() == value,
    {
        RangedU32 { value }
    }

    /// Retrieve the inner value of the type.
    ///
    /// # Remarks
    ///
    /// This is guaranteed to return a value in the range `MIN..=MAX`.
    pub fn inner(self) -> (r: u32)
        ensures
            r == self.spec_value(),
            MIN <= r <= MAX,
    {
        proof {
            use_type_invariant(&self);
        }
        self.value
    }

    /// Borrow the inner value of the type, which lies in `MIN..=MAX`.
    pub fn as_ref(&self) -> (r: &u32)
        ensures
            *r == self.spec_value(),
            MIN <= *r <= MAX,
    {
        proof {
            use_type_invariant(self);
        }
        &self.value
    }

    /// Render the inner value in base ten, exactly as the underlying
    /// scalar itself is rendered.
    pub fn to_decimal(&self) -> (s: String)
        ensures
            s@ == spec_decimal_nat(self.spec_value() as nat),
    {
        decimal_u128(self.inner() as u128)
    }

    /// Soundness: checked construction succeeds exactly when the value
    /// lies in `MIN..=MAX`, and on success the stored scalar is the
    /// supplied value, unchanged.
    pub proof fn lemma_soundness(value: u32)
        ensures
            Self::spec_new(value) is Ok <==> MIN <= value <= MAX,
            Self::spec_new(value) is Ok ==> Self::spec_new(value)->Ok_0.spec_value() == value,
    {
    }

    /// Precedence: with an unsatisfiable range, checked construction
    /// fails with `InvalidRange` whatever the value, never with
    /// `TooSmall` or `TooLarge`.
    pub proof fn lemma_invalid_range_precedence(value: u32)
        requires
            MIN > MAX,
        ensures
            Self::spec_new(value) == Err::<Self, RangedError<u32>>(
                (RangedError::InvalidRange { minimum: MIN, maximum: MAX }),
            ),
    {
    }

    /// Boundary inclusion: both bounds themselves are accepted whenever
    /// the range is satisfiable.
    pub proof fn lemma_boundary_inclusion()
        requires
            MIN <= MAX,
        ensures
            Self::spec_new(MIN) is Ok,
            Self::spec_new(MAX) is Ok,
    {
    }

    /// Off-by-one: when the range holds exactly one value, each
    /// neighbour the representation can hold is rejected with the
    /// matching error.
    pub proof fn lemma_off_by_one()
        requires
            MIN == MAX,
        ensures
            MIN > 0 ==> Self::spec_new((MIN - 1) as u32) == Err::<Self, RangedError<u32>>(
                (RangedError::TooSmall { value: (MIN - 1) as u32, minimum: MIN }),
            ),
            MAX < u32::MAX ==> Self::spec_new((MAX + 1) as u32) == Err::<Self, RangedError<u32>>(
                (RangedError::TooLarge { value: (MAX + 1) as u32, maximum: MAX }),
            ),
    {
    }

    /// Round trip: a value accepted by checked construction is stored
    /// and extracted unchanged, with no clamping or rounding.
    pub proof fn lemma_round_trip(value: u32)
        requires
            MIN <= value <= MAX,
        ensures
            Self::spec_new(value) is Ok,
            Self::spec_new(value)->Ok_0.spec_value() == value,
    {
    }

    /// Contract-only unsafety: unchecked construction with an in-range
    /// value yields exactly the value checked construction would, so
    /// every later read agrees between the two.
    pub proof fn lemma_unchecked_agrees(value: u32)
        requires
            MIN <= value <= MAX,
        ensures
            Self::spec_new(value) == Ok::<Self, RangedError<u32>>(Self::spec_new_unchecked(value)),
    {
    }
}


/// A ranged `u64` type with a value between `MIN` and `MAX`.
#[derive(Debug, Copy, Clone, PartialEq, Eq, PartialOrd, Ord, Hash)]
pub struct RangedU64<const MIN: u64, const MAX: u64> {
    value: u64,
}

impl<const MIN: u64, const MAX: u64> RangedU64<MIN, MAX> {
    #[verifier::type_invariant]
    spec fn in_range(self) -> bool {
        MIN <= self.value <= MAX
    }

    /// The stored scalar, for specifications.
    pub closed spec fn spec_value(self) -> u64 {
        self.value
    }

    /// What checked construction returns, as a function of the input:
    /// an unsatisfiable range is reported first, then the value is held
    /// against each bound in turn, and an accepted value is stored
    /// unchanged.
    pub closed spec fn spec_new(value: u64) -> Result<Self, RangedError<u64>> {
        if MIN > MAX {
            Err(RangedError::InvalidRange { minimum: MIN, maximum: MAX })
        } else if value < MIN {
            Err(RangedError::TooSmall { value, minimum: MIN })
        } else if value > MAX {
            Err(RangedError::TooLarge { value, maximum: MAX })
        } else {
            Ok(RangedU64 { value })
        }
    }

    /// What unchecked construction returns.
    pub closed spec fn spec_new_unchecked(value: u64) -> Self {
        RangedU64 { value }
    }

    /// Create a new instance of the type.
    ///
    /// # Parameters
    ///
    /// The value must be in the range `MIN..=MAX`.
    pub fn new(value: u64) -> (r: Result<Self, RangedError<u64>>)
        ensures
            r == Self::spec_new(value),
            r is Ok <==> MIN <= value <= MAX,
            r is Ok ==> r->Ok_0.spec_value() == value,
            MIN > MAX ==> r == Err::<Self, RangedError<u64>>(
                (RangedError::InvalidRange { minimum: MIN, maximum: MAX }),
            ),
            MIN <= MAX && value < MIN ==> r == Err::<Self, RangedError<u64>>(
                (RangedError::TooSmall { value, minimum: MIN }),
            ),
            MIN <= MAX && value > MAX ==> r == Err::<Self, RangedError<u64>>(
                (RangedError::TooLarge { value, maximum: MAX }),
            ),
    {
        if MIN > MAX {
            return Err(RangedError::InvalidRange { minimum: MIN, maximum: MAX });
        }
        if value < MIN {
            Err(RangedError::TooSmall { value, minimum: MIN })
        } else if value > MAX {
            Err(RangedError::TooLarge { value, maximum: MAX })
        } else {
            Ok(RangedU64 { value })
        }
    }

    /// Create a new instance of the type without a bounds check.
    ///
    /// The caller must prove that the value is in the range `MIN..=MAX`;
    /// no validation happens at runtime, and with an empty range (`MIN`
    /// greater than `MAX`) no call can ever be proved.
    pub fn new_unchecked(value: u64) -> (r: Self)
        requires
            MIN <= value <= MAX,
        ensures
            r == Self::spec_new_unchecked(value),
            r.spec_value() == value,
    {
        RangedU64 { value }
    }

    /// Retrieve the inner value of the type.
    ///
    /// # Remarks
    ///
    /// This is guaranteed to return a value in the range `MIN..=MAX`.
    pub fn inner(self) -> (r: u64)
        ensures
            r == self.spec_value(),
            MIN <= r <= MAX,
    {
        proof {
            use_type_invariant(&self);
        }
        self.value
    }

    /// Borrow the inner value of the type, which lies in `MIN..=MAX`.
    pub fn as_ref(&self) -> (r: &u64)
        ensures
            *r == self.spec_value(),
            MIN <= *r <= MAX,
    {
        proof {
            use_type_invariant(self);
        }
        &self.value
    }

    /// Render the inner value in base ten, exactly as the underlying
    /// scalar itself is rendered.
    pub fn to_decimal(&self) -> (s: String)
        ensures
            s@ == spec_decimal_nat(self.spec_value() as nat),
    {
        decimal_u128(self.inner() as u128)
    }

    /// Soundness: checked construction succeeds exactly when the value
    /// lies in `MIN..=MAX`, and on success the stored scalar is the
    /// supplied value, unchanged.
    pub proof fn lemma_soundness(value: u64)
        ensures
            Self::spec_new(value) is Ok <==> MIN <= value <= MAX,
            Self::spec_new(value) is Ok ==> Self::spec_new(value)->Ok_0.spec_value() == value,
    {
    }

    /// Precedence: with an unsatisfiable range, checked construction
    /// fails with `InvalidRange` whatever the value, never with
    /// `TooSmall` or `TooLarge`.
    pub proof fn lemma_invalid_range_precedence(value: u64)
        requires
            MIN > MAX,
        ensures
            Self::spec_new(value) == Err::<Self, RangedError<u64>>(
                (RangedError::InvalidRange { minimum: MIN, maximum: MAX }),
            ),
    {
    }

    /// Boundary inclusion: both bounds themselves are accepted whenever
    /// the range is satisfiable.
    pub proof fn lemma_boundary_inclusion()
        requires
            MIN <= MAX,
        ensures
            Self::spec_new(MIN) is Ok,
            Self::spec_new(MAX) is Ok,
    {
    }

    /// Off-by-one: when the range holds exactly one value, each
    /// neighbour the representation can hold is rejected with the
    /// matching error.
    pub proof fn lemma_off_by_one()
        requires
            MIN == MAX,
        ensures
            MIN > 0 ==> Self::spec_new((MIN - 1) as u64) == Err::<Self, RangedError<u64>>(
                (RangedError::TooSmall { value: (MIN - 1) as u64, minimum: MIN }),
            ),
            MAX < u64::MAX ==> Self::spec_new((MAX + 1) as u64) == Err::<Self, RangedError<u64>>(
                (RangedError::TooLarge { value: (MAX + 1) as u64, maximum: MAX }),
            ),
    {
    }

    /// Round trip: a value accepted by checked construction is stored
    /// and extracted unchanged, with no clamping or rounding.
    pub proof fn lemma_round_trip(value: u64)
        requires
            MIN <= value <= MAX,
        ensures
            Self::spec_new(value) is Ok,
            Self::spec_new(value)->Ok_0.spec_value() == value,
    {
    }

    /// Contract-only unsafety: unchecked construction with an in-range
    /// value yields exactly the value checked construction would, so
    /// every later read agrees between the two.
    pub proof fn lemma_unchecked_agrees(value: u64)
        requires
            MIN <= value <= MAX,
        ensures
            Self::spec_new(value) == Ok::<Self, RangedError<u64>>(Self::spec_new_unchecked(value)),
    {
    }
}


/// A ranged `u128` type with a value between `MIN` and `MAX`.
#[derive(Debug, Copy, Clone, PartialEq, Eq, PartialOrd, Ord, Hash)]
pub struct RangedU128<const MIN: u128, const MAX: u128> {
    value: u128,
}

impl<const MIN: u128, const MAX: u128> RangedU128<MIN, MAX> {
    #[verifier::type_invariant]
    spec fn in_range(self) -> bool {
        MIN <= self.value <= MAX
    }

    /// The stored scalar, for specifications.
    pub closed spec fn spec_value(self) -> u128 {
        self.value
    }

    /// What checked construction returns, as a function of the input:
    /// an unsatisfiable range is reported first, then the value is held
    /// against each bound in turn, and an accepted value is stored
    /// unchanged.
    pub closed spec fn spec_new(value: u128) -> Result<Self, RangedError<u128>> {
        if MIN > MAX {
            Err(RangedError::InvalidRange { minimum: MIN, maximum: MAX })
        } else if value < MIN {
            Err(RangedError::TooSmall { value, minimum: MIN })
        } else if value > MAX {
            Err(RangedError::TooLarge { value, maximum: MAX })
        } else {
            Ok(RangedU128 { value })
        }
    }

    /// What unchecked construction returns.
    pub closed spec fn spec_new_unchecked(value: u128) -> Self {
        RangedU128 { value }
    }

    /// Create a new instance of the type.
    ///
    /// # Parameters
    ///
    /// The value must be in the range `MIN..=MAX`.
    pub fn new(value: u128) -> (r: Result<Self, RangedError<u128>>)
        ensures
            r == Self::spec_new(value),
            r is Ok <==> MIN <= value <= MAX,
            r is Ok ==> r->Ok_0.spec_value() == value,
            MIN > MAX ==> r == Err::<Self, RangedError<u128>>(
                (RangedError::InvalidRange { minimum: MIN, maximum: MAX }),
            ),
            MIN <= MAX && value < MIN ==> r == Err::<Self, RangedError<u128>>(
                (RangedError::TooSmall { value, minimum: MIN }),
            ),
            MIN <= MAX && value > MAX ==> r == Err::<Self, RangedError<u128>>(
                (RangedError::TooLarge { value, maximum: MAX }),
            ),
    {
        if MIN > MAX {
            return Err(RangedError::InvalidRange { minimum: MIN, maximum: MAX });
        }
        if value < MIN {
            Err(RangedError::TooSmall { value, minimum: MIN })
        } else if value > MAX {
            Err(RangedError::TooLarge { value, maximum: MAX })
        } else {
            Ok(RangedU128 { value })
        }
    }

    /// Create a new instance of the type without a bounds check.
    ///
    /// The caller must prove that the value is in the range `MIN..=MAX`;
    /// no validation happens at runtime, and with an empty range (`MIN`
    /// greater than `MAX`) no call can ever be proved.
    pub fn new_unchecked(value: u128) -> (r: Self)
        requires
            MIN <= value <= MAX,
        ensures
            r == Self::spec_new_unchecked(value),
            r.spec_value() == value,
    {
        RangedU128 { value }
    }

    /// Retrieve the inner value of the type.
    ///
    /// # Remarks
    ///
    /// This is guaranteed to return a value in the range `MIN..=MAX`.
    pub fn inner(self) -> (r: u128)
        ensures
            r == self.spec_value(),
            MIN <= r <= MAX,
    {
        proof {
            use_type_invariant(&self);
        }
        self.value
    }

    /// Borrow the inner value of the type, which lies in `MIN..=MAX`.
    pub fn as_ref(&self) -> (r: &u128)
        ensures
            *r == self.spec_value(),
            MIN <= *r <= MAX,
    {
        proof {
            use_type_invariant(self);
        }
        &self.value
    }

    /// Render the inner value in base ten, exactly as the underlying
    /// scalar itself is rendered.
    pub fn to_decimal(&self) -> (s: String)
        ensures
            s@ == spec_decimal_nat(self.spec_value() as nat),
    {
        decimal_u128(self.inner() as u128)
    }

    /// Soundness: checked construction succeeds exactly when the value
    /// lies in `MIN..=MAX`, and on success the stored scalar is the
    /// supplied value, unchanged.
    pub proof fn lemma_soundness(value: u128)
        ensures
            Self::spec_new(value) is Ok <==> MIN <= value <= MAX,
            Self::spec_new(value) is Ok ==> Self::spec_new(value)->Ok_0.spec_value() == value,
    {
    }

    /// Precedence: with an unsatisfiable range, checked construction
    /// fails with `InvalidRange` whatever the value, never with
    /// `TooSmall` or `TooLarge`.
    pub proof fn lemma_invalid_range_precedence(value: u128)
        requires
            MIN > MAX,
        ensures
            Self::spec_new(value) == Err::<Self, RangedError<u128>>(
                (RangedError::InvalidRange { minimum: MIN, maximum: MAX }),
            ),
    {
    }

    /// Boundary inclusion: both bounds themselves are accepted whenever
    /// the range is satisfiable.
    pub proof fn lemma_boundary_inclusion()
        requires
            MIN <= MAX,
        ensures
            Self::spec_new(MIN) is Ok,
            Self::spec_new(MAX) is Ok,
    {
    }

    /// Off-by-one: when the range holds exactly one value, each
    /// neighbour the representation can hold is rejected with the
    /// matching error.
    pub proof fn lemma_off_by_one()
        requires
            MIN == MAX,
        ensures
            MIN > 0 ==> Self::spec_new((MIN - 1) as u128) == Err::<Self, RangedError<u128>>(
                (RangedError::TooSmall { value: (MIN - 1) as u128, minimum: MIN }),
            ),
            MAX < u128::MAX ==> Self::spec_new((MAX + 1) as u128) == Err::<Self, RangedError<u128>>(
                (RangedError::TooLarge { value: (MAX + 1) as u128, maximum: MAX }),
            ),
    {
    }

    /// Round trip: a value accepted by checked construction is stored
    /// and extracted unchanged, with no clamping or rounding.
    pub proof fn lemma_round_trip(value: u128)
        requires
            MIN <= value <= MAX,
        ensures
            Self::spec_new(value) is Ok,
            Self::spec_new(value)->Ok_0.spec_value() == value,
    {
    }

    /// Contract-only unsafety: unchecked construction with an in-range
    /// value yields exactly the value checked construction would, so
    /// every later read agrees between the two.
    pub proof fn lemma_unchecked_agrees(value: u128)
        requires
            MIN <= value <= MAX,
        ensures
            Self::spec_new(value) == Ok::<Self, RangedError<u128>>(Self::spec_new_unchecked(value)),
    {
    }
}

} // verus!
