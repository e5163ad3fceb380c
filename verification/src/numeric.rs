//! Ranged numeric types and their validation error.
//!
//! Each ranged type wraps one fixed-width integer and guarantees that
//! every live value lies inside an inclusive range `[MIN, MAX]`.  The
//! unsigned types carry the range as const generic parameters, so two
//! ranges make two distinct types.  Const generic parameters of signed
//! integer type are not supported by the verifier, so the signed types
//! carry their range as fields instead: there the range is part of the
//! instance and the guarantee is a type invariant established at
//! construction.

use vstd::prelude::*;
use vstd::string::StringExecFns;

use crate::render::{decimal_i128, decimal_u128, spec_decimal_int};

pub mod signed;
pub mod unsigned;

pub use signed::{RangedI128, RangedI16, RangedI32, RangedI64, RangedI8};
pub use unsigned::{RangedU128, RangedU16, RangedU32, RangedU64, RangedU8};

verus! {

/// An error for a ranged integer.
#[derive(Debug, Copy, Clone, PartialEq, Eq)]
pub enum RangedError<IntType> {
    /// The provided value was too small.
    TooSmall {
        /// The value provided.
        value: IntType,
        /// The minimum value of the ranged type.
        minimum: IntType,
    },
    /// The provided value was too large.
    TooLarge {
        /// The value provided.
        value: IntType,
        /// The maximum value of the ranged type.
        maximum: IntType,
    },
    /// The range of the type is invalid (i.e., the minimum value exceeds
    /// the maximum value), so no value at all can satisfy it.
    InvalidRange {
        /// The minimum value of the ranged type.
        minimum: IntType,
        /// The maximum value of the ranged type.
        maximum: IntType,
    },
}

/// The diagnostic text for a value below the minimum.
pub open spec fn spec_too_small_message(value: int, minimum: int) -> Seq<char> {
    "value provided, "@ + spec_decimal_int(value) + ", is lesser than the minimum value, "@
        + spec_decimal_int(minimum) + ", for the type"@
}

/// The diagnostic text for a value above the maximum.
pub open spec fn spec_too_large_message(value: int, maximum: int) -> Seq<char> {
    "value provided, "@ + spec_decimal_int(value) + ", is greater than the maximum value, "@
        + spec_decimal_int(maximum) + ", for the type"@
}

/// The diagnostic text for an unsatisfiable range.
pub open spec fn spec_invalid_range_message(minimum: int, maximum: int) -> Seq<char> {
    "the minimum value, "@ + spec_decimal_int(minimum) + ", is greater than the maximum value, "@
        + spec_decimal_int(maximum)
}

/// Glue two rendered numbers into one diagnostic line.
fn compose_message(
    head: &'static str,
    first: String,
    mid: &'static str,
    second: String,
    tail: &'static str,
) -> (s: String)
    ensures
        s@ == head@ + first@ + mid@ + second@ + tail@,
{
    let mut s = head.to_owned();
    s.append(first.as_str());
    s.append(mid);
    s.append(second.as_str());
    s.append(tail);
    proof {
        assert(s@ =~= head@ + first@ + mid@ + second@ + tail@);
    }
    s
}

impl RangedError<u8> {
    /// The diagnostic text of this error, stating the offending value
    /// and the bound it violated.
    pub open spec fn spec_message(self) -> Seq<char> {
        match self {
            RangedError::TooSmall { value, minimum } => spec_too_small_message(
                value as int,
                minimum as int,
            ),
            RangedError::TooLarge { value, maximum } => spec_too_large_message(
                value as int,
                maximum as int,
            ),
            RangedError::InvalidRange { minimum, maximum } => spec_invalid_range_message(
                minimum as int,
                maximum as int,
            ),
        }
    }

    /// Render the diagnostic text of this error.
    pub fn message(&self) -> (s: String)
        ensures
            s@ == self.spec_message(),
    {
        match self {
            RangedError::TooSmall { value, minimum } => compose_message(
                "value provided, ",
                decimal_u128(*value as u128),
                ", is lesser than the minimum value, ",
                decimal_u128(*minimum as u128),
                ", for the type",
            ),
            RangedError::TooLarge { value, maximum } => compose_message(
                "value provided, ",
                decimal_u128(*value as u128),
                ", is greater than the maximum value, ",
                decimal_u128(*maximum as u128),
                ", for the type",
            ),
            RangedError::InvalidRange { minimum, maximum } => {
                let s = compose_message(
                    "the minimum value, ",
                    decimal_u128(*minimum as u128),
                    ", is greater than the maximum value, ",
                    decimal_u128(*maximum as u128),
                    "",
                );
                proof {
                    reveal_strlit("");
                    assert(s@ =~= self.spec_message());
                }
                s
            },
        }
    }
}


impl RangedError<u16> {
    /// The diagnostic text of this error, stating the offending value
    /// and the bound it violated.
    pub open spec fn spec_message(self) -> Seq<char> {
        match self {
            RangedError::TooSmall { value, minimum } => spec_too_small_message(
                value as int,
                minimum as int,
            ),
            RangedError::TooLarge { value, maximum } => spec_too_large_message(
                value as int,
                maximum as int,
            ),
            RangedError::InvalidRange { minimum, maximum } => spec_invalid_range_message(
                minimum as int,
                maximum as int,
            ),
        }
    }

    /// Render the diagnostic text of this error.
    pub fn message(&self) -> (s: String)
        ensures
            s@ == self.spec_message(),
    {
        match self {
            RangedError::TooSmall { value, minimum } => compose_message(
                "value provided, ",
                decimal_u128(*value as u128),
                ", is lesser than the minimum value, ",
                decimal_u128(*minimum as u128),
                ", for the type",
            ),
            RangedError::TooLarge { value, maximum } => compose_message(
                "value provided, ",
                decimal_u128(*value as u128),
                ", is greater than the maximum value, ",
                decimal_u128(*maximum as u128),
                ", for the type",
            ),
            RangedError::InvalidRange { minimum, maximum } => {
                let s = compose_message(
                    "the minimum value, ",
                    decimal_u128(*minimum as u128),
                    ", is greater than the maximum value, ",
                    decimal_u128(*maximum as u128),
                    "",
                );
                proof {
                    reveal_strlit("");
                    assert(s@ =~= self.spec_message());
                }
                s
            },
        }
    }
}


impl RangedError<u32> {
    /// The diagnostic text of this error, stating the offending value
    /// and the bound it violated.
    pub open spec fn spec_message(self) -> Seq<char> {
        match self {
            RangedError::TooSmall { value, minimum } => spec_too_small_message(
                value as int,
                minimum as int,
            ),
            RangedError::TooLarge { value, maximum } => spec_too_large_message(
                value as int,
                maximum as int,
            ),
            RangedError::InvalidRange { minimum, maximum } => spec_invalid_range_message(
                minimum as int,
                maximum as int,
            ),
        }
    }

    /// Render the diagnostic text of this error.
    pub fn message(&self) -> (s: String)
        ensures
            s@ == self.spec_message(),
    {
        match self {
            RangedError::TooSmall { value, minimum } => compose_message(
                "value provided, ",
                decimal_u128(*value as u128),
                ", is lesser than the minimum value, ",
                decimal_u128(*minimum as u128),
                ", for the type",
            ),
            RangedError::TooLarge { value, maximum } => compose_message(
                "value provided, ",
                decimal_u128(*value as u128),
                ", is greater than the maximum value, ",
                decimal_u128(*maximum as u128),
                ", for the type",
            ),
            RangedError::InvalidRange { minimum, maximum } => {
                let s = compose_message(
                    "the minimum value, ",
                    decimal_u128(*minimum as u128),
                    ", is greater than the maximum value, ",
                    decimal_u128(*maximum as u128),
                    "",
                );
                proof {
                    reveal_strlit("");
                    assert(s@ =~= self.spec_message());
                }
                s
            },
        }
    }
}


impl RangedError<u64> {
    /// The diagnostic text of this error, stating the offending value
    /// and the bound it violated.
    pub open spec fn spec_message(self) -> Seq<char> {
        match self {
            RangedError::TooSmall { value, minimum } => spec_too_small_message(
                value as int,
                minimum as int,
            ),
            RangedError::TooLarge { value, maximum } => spec_too_large_message(
                value as int,
                maximum as int,
            ),
            RangedError::InvalidRange { minimum, maximum } => spec_invalid_range_message(
                minimum as int,
                maximum as int,
            ),
        }
    }

    /// Render the diagnostic text of this error.
    pub fn message(&self) -> (s: String)
        ensures
            s@ == self.spec_message(),
    {
        match self {
            RangedError::TooSmall { value, minimum } => compose_message(
                "value provided, ",
                decimal_u128(*value as u128),
                ", is lesser than the minimum value, ",
                decimal_u128(*minimum as u128),
                ", for the type",
            ),
            RangedError::TooLarge { value, maximum } => compose_message(
                "value provided, ",
                decimal_u128(*value as u128),
                ", is greater than the maximum value, ",
                decimal_u128(*maximum as u128),
                ", for the type",
            ),
            RangedError::InvalidRange { minimum, maximum } => {
                let s = compose_message(
                    "the minimum value, ",
                    decimal_u128(*minimum as u128),
                    ", is greater than the maximum value, ",
                    decimal_u128(*maximum as u128),
                    "",
                );
                proof {
                    reveal_strlit("");
                    assert(s@ =~= self.spec_message());
                }
                s
            },
        }
    }
}


impl RangedError<u128> {
    /// The diagnostic text of this error, stating the offending value
    /// and the bound it violated.
    pub open spec fn spec_message(self) -> Seq<char> {
        match self {
            RangedError::TooSmall { value, minimum } => spec_too_small_message(
                value as int,
                minimum as int,
            ),
            RangedError::TooLarge { value, maximum } => spec_too_large_message(
                value as int,
                maximum as int,
            ),
            RangedError::InvalidRange { minimum, maximum } => spec_invalid_range_message(
                minimum as int,
                maximum as int,
            ),
        }
    }

    /// Render the diagnostic text of this error.
    pub fn message(&self) -> (s: String)
        ensures
            s@ == self.spec_message(),
    {
        match self {
            RangedError::TooSmall { value, minimum } => compose_message(
                "value provided, ",
                decimal_u128(*value as u128),
                ", is lesser than the minimum value, ",
                decimal_u128(*minimum as u128),
                ", for the type",
            ),
            RangedError::TooLarge { value, maximum } => compose_message(
                "value provided, ",
                decimal_u128(*value as u128),
                ", is greater than the maximum value, ",
                decimal_u128(*maximum as u128),
                ", for the type",
            ),
            RangedError::InvalidRange { minimum, maximum } => {
                let s = compose_message(
                    "the minimum value, ",
                    decimal_u128(*minimum as u128),
                    ", is greater than the maximum value, ",
                    decimal_u128(*maximum as u128),
                    "",
                );
                proof {
                    reveal_strlit("");
                    assert(s@ =~= self.spec_message());
                }
                s
            },
        }
    }
}


impl RangedError<i8> {
    /// The diagnostic text of this error, stating the offending value
    /// and the bound it violated.
    pub open spec fn spec_message(self) -> Seq<char> {
        match self {
            RangedError::TooSmall { value, minimum } => spec_too_small_message(
                value as int,
                minimum as int,
            ),
            RangedError::TooLarge { value, maximum } => spec_too_large_message(
                value as int,
                maximum as int,
            ),
            RangedError::InvalidRange { minimum, maximum } => spec_invalid_range_message(
                minimum as int,
                maximum as int,
            ),
        }
    }

    /// Render the diagnostic text of this error.
    pub fn message(&self) -> (s: String)
        ensures
            s@ == self.spec_message(),
    {
        match self {
            RangedError::TooSmall { value, minimum } => compose_message(
                "value provided, ",
                decimal_i128(*value as i128),
                ", is lesser than the minimum value, ",
                decimal_i128(*minimum as i128),
                ", for the type",
            ),
            RangedError::TooLarge { value, maximum } => compose_message(
                "value provided, ",
                decimal_i128(*value as i128),
                ", is greater than the maximum value, ",
                decimal_i128(*maximum as i128),
                ", for the type",
            ),
            RangedError::InvalidRange { minimum, maximum } => {
                let s = compose_message(
                    "the minimum value, ",
                    decimal_i128(*minimum as i128),
                    ", is greater than the maximum value, ",
                    decimal_i128(*maximum as i128),
                    "",
                );
                proof {
                    reveal_strlit("");
                    assert(s@ =~= self.spec_message());
                }
                s
            },
        }
    }
}


impl RangedError<i16> {
    /// The diagnostic text of this error, stating the offending value
    /// and the bound it violated.
    pub open spec fn spec_message(self) -> Seq<char> {
        match self {
            RangedError::TooSmall { value, minimum } => spec_too_small_message(
                value as int,
                minimum as int,
            ),
            RangedError::TooLarge { value, maximum } => spec_too_large_message(
                value as int,
                maximum as int,
            ),
            RangedError::InvalidRange { minimum, maximum } => spec_invalid_range_message(
                minimum as int,
                maximum as int,
            ),
        }
    }

    /// Render the diagnostic text of this error.
    pub fn message(&self) -> (s: String)
        ensures
            s@ == self.spec_message(),
    {
        match self {
            RangedError::TooSmall { value, minimum } => compose_message(
                "value provided, ",
                decimal_i128(*value as i128),
                ", is lesser than the minimum value, ",
                decimal_i128(*minimum as i128),
                ", for the type",
            ),
            RangedError::TooLarge { value, maximum } => compose_message(
                "value provided, ",
                decimal_i128(*value as i128),
                ", is greater than the maximum value, ",
                decimal_i128(*maximum as i128),
                ", for the type",
            ),
            RangedError::InvalidRange { minimum, maximum } => {
                let s = compose_message(
                    "the minimum value, ",
                    decimal_i128(*minimum as i128),
                    ", is greater than the maximum value, ",
                    decimal_i128(*maximum as i128),
                    "",
                );
                proof {
                    reveal_strlit("");
                    assert(s@ =~= self.spec_message());
                }
                s
            },
        }
    }
}


impl RangedError<i32> {
    /// The diagnostic text of this error, stating the offending value
    /// and the bound it violated.
    pub open spec fn spec_message(self) -> Seq<char> {
        match self {
            RangedError::TooSmall { value, minimum } => spec_too_small_message(
                value as int,
                minimum as int,
            ),
            RangedError::TooLarge { value, maximum } => spec_too_large_message(
                value as int,
                maximum as int,
            ),
            RangedError::InvalidRange { minimum, maximum } => spec_invalid_range_message(
                minimum as int,
                maximum as int,
            ),
        }
    }

    /// Render the diagnostic text of this error.
    pub fn message(&self) -> (s: String)
        ensures
            s@ == self.spec_message(),
    {
        match self {
            RangedError::TooSmall { value, minimum } => compose_message(
                "value provided, ",
                decimal_i128(*value as i128),
                ", is lesser than the minimum value, ",
                decimal_i128(*minimum as i128),
                ", for the type",
            ),
            RangedError::TooLarge { value, maximum } => compose_message(
                "value provided, ",
                decimal_i128(*value as i128),
                ", is greater than the maximum value, ",
                decimal_i128(*maximum as i128),
                ", for the type",
            ),
            RangedError::InvalidRange { minimum, maximum } => {
                let s = compose_message(
                    "the minimum value, ",
                    decimal_i128(*minimum as i128),
                    ", is greater than the maximum value, ",
                    decimal_i128(*maximum as i128),
                    "",
                );
                proof {
                    reveal_strlit("");
                    assert(s@ =~= self.spec_message());
                }
                s
            },
        }
    }
}


impl RangedError<i64> {
    /// The diagnostic text of this error, stating the offending value
    /// and the bound it violated.
    pub open spec fn spec_message(self) -> Seq<char> {
        match self {
            RangedError::TooSmall { value, minimum } => spec_too_small_message(
                value as int,
                minimum as int,
            ),
            RangedError::TooLarge { value, maximum } => spec_too_large_message(
                value as int,
                maximum as int,
            ),
            RangedError::InvalidRange { minimum, maximum } => spec_invalid_range_message(
                minimum as int,
                maximum as int,
            ),
        }
    }

    /// Render the diagnostic text of this error.
    pub fn message(&self) -> (s: String)
        ensures
            s@ == self.spec_message(),
    {
        match self {
            RangedError::TooSmall { value, minimum } => compose_message(
                "value provided, ",
                decimal_i128(*value as i128),
                ", is lesser than the minimum value, ",
                decimal_i128(*minimum as i128),
                ", for the type",
            ),
            RangedError::TooLarge { value, maximum } => compose_message(
                "value provided, ",
                decimal_i128(*value as i128),
                ", is greater than the maximum value, ",
                decimal_i128(*maximum as i128),
                ", for the type",
            ),
            RangedError::InvalidRange { minimum, maximum } => {
                let s = compose_message(
                    "the minimum value, ",
                    decimal_i128(*minimum as i128),
                    ", is greater than the maximum value, ",
                    decimal_i128(*maximum as i128),
                    "",
                );
                proof {
                    reveal_strlit("");
                    assert(s@ =~= self.spec_message());
                }
                s
            },
        }
    }
}


impl RangedError<i128> {
    /// The diagnostic text of this error, stating the offending value
    /// and the bound it violated.
    pub open spec fn spec_message(self) -> Seq<char> {
        match self {
            RangedError::TooSmall { value, minimum } => spec_too_small_message(
                value as int,
                minimum as int,
            ),
            RangedError::TooLarge { value, maximum } => spec_too_large_message(
                value as int,
                maximum as int,
            ),
            RangedError::InvalidRange { minimum, maximum } => spec_invalid_range_message(
                minimum as int,
                maximum as int,
            ),
        }
    }

    /// Render the diagnostic text of this error.
    pub fn message(&self) -> (s: String)
        ensures
            s@ == self.spec_message(),
    {
        match self {
            RangedError::TooSmall { value, minimum } => compose_message(
                "value provided, ",
                decimal_i128(*value as i128),
                ", is lesser than the minimum value, ",
                decimal_i128(*minimum as i128),
                ", for the type",
            ),
            RangedError::TooLarge { value, maximum } => compose_message(
                "value provided, ",
                decimal_i128(*value as i128),
                ", is greater than the maximum value, ",
                decimal_i128(*maximum as i128),
                ", for the type",
            ),
            RangedError::InvalidRange { minimum, maximum } => {
                let s = compose_message(
                    "the minimum value, ",
                    decimal_i128(*minimum as i128),
                    ", is greater than the maximum value, ",
                    decimal_i128(*maximum as i128),
                    "",
                );
                proof {
                    reveal_strlit("");
                    assert(s@ =~= self.spec_message());
                }
                s
            },
        }
    }
}

} // verus!
