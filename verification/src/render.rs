//! Decimal rendering of integers, used to build diagnostic messages.
//!
//! The specification side describes the usual base-ten notation of an
//! integer as a sequence of characters; the executable side produces a
//! `String` proved equal to that sequence.

use vstd::prelude::*;
use vstd::string::StringExecFns;

verus! {

/// The character for a single decimal digit.
pub open spec fn digit_char(d: int) -> char {
    if d == 0 {
        '0'
    } else if d == 1 {
        '1'
    } else if d == 2 {
        '2'
    } else if d == 3 {
        '3'
    } else if d == 4 {
        '4'
    } else if d == 5 {
        '5'
    } else if d == 6 {
        '6'
    } else if d == 7 {
        '7'
    } else if d == 8 {
        '8'
    } else {
        '9'
    }
}

/// The base-ten notation of a natural number: most significant digit
/// first, no leading zeros except for zero itself.
pub open spec fn spec_decimal_nat(n: nat) -> Seq<char>
    decreases n,
{
    if n < 10 {
        seq![digit_char(n as int)]
    } else {
        spec_decimal_nat(n / 10) + seq![digit_char((n % 10) as int)]
    }
}

/// The base-ten notation of an integer: a leading `-` for negative
/// values, then the notation of the magnitude.
pub open spec fn spec_decimal_int(i: int) -> Seq<char> {
    if i < 0 {
        seq!['-'] + spec_decimal_nat((-i) as nat)
    } else {
        spec_decimal_nat(i as nat)
    }
}

/// The string for a single decimal digit.
fn digit_str(d: u128) -> (s: &'static str)
    requires
        d < 10,
    ensures
        s@ == seq![digit_char(d as int)],
{
    let s: &'static str = if d == 0 {
        "0"
    } else if d == 1 {
        "1"
    } else if d == 2 {
        "2"
    } else if d == 3 {
        "3"
    } else if d == 4 {
        "4"
    } else if d == 5 {
        "5"
    } else if d == 6 {
        "6"
    } else if d == 7 {
        "7"
    } else if d == 8 {
        "8"
    } else {
        "9"
    };
    proof {
        reveal_strlit("0");
        reveal_strlit("1");
        reveal_strlit("2");
        reveal_strlit("3");
        reveal_strlit("4");
        reveal_strlit("5");
        reveal_strlit("6");
        reveal_strlit("7");
        reveal_strlit("8");
        reveal_strlit("9");
        assert(s@ =~= seq![digit_char(d as int)]);
    }
    s
}

/// Render an unsigned value in base ten.
pub fn decimal_u128(n: u128) -> (s: String)
    ensures
        s@ == spec_decimal_nat(n as nat),
    decreases n,
{
    if n < 10 {
        let s = digit_str(n).to_owned();
        proof {
            assert(s@ =~= spec_decimal_nat(n as nat));
        }
        s
    } else {
        let mut s = decimal_u128(n / 10);
        s.append(digit_str(n % 10));
        proof {
            assert(s@ =~= spec_decimal_nat(n as nat));
        }
        s
    }
}

/// Render a signed value in base ten.
pub fn decimal_i128(n: i128) -> (s: String)
    ensures
        s@ == spec_decimal_int(n as int),
{
    if n >= 0 {
        let s = decimal_u128(n as u128);
        proof {
            assert(s@ =~= spec_decimal_int(n as int));
        }
        s
    } else {
        // `-(n + 1)` avoids overflow when `n` is the smallest value of
        // the representation; adding the 1 back happens in `u128`.
        let magnitude: u128 = ((-(n + 1)) as u128) + 1;
        assert(magnitude as int == -(n as int));
        let mut s = "-".to_owned();
        s.append(decimal_u128(magnitude).as_str());
        proof {
            reveal_strlit("-");
            assert(("-")@ =~= seq!['-']);
            assert(s@ =~= spec_decimal_int(n as int));
        }
        s
    }
}

} // verus!
