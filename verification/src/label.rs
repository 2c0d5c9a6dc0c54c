//! Decimal text of integers, as `Display` writes an `i32`.

use vstd::prelude::*;

verus! {

/// The character of the decimal digit `d` (0 to 9).
pub open spec fn digit_char(d: int) -> char {
    (d + 48) as char
}

/// The decimal digits of `n`, most significant first, without leading zeros.
pub open spec fn digits(n: nat) -> Seq<char>
    decreases n,
{
    if n < 10 {
        seq![digit_char(n as int)]
    } else {
        digits(n / 10).push(digit_char((n % 10) as int))
    }
}

/// The decimal text of `x`: a minus sign for negative numbers, then the digits.
pub open spec fn decimal(x: int) -> Seq<char> {
    if x < 0 {
        seq!['-'] + digits((-x) as nat)
    } else {
        digits(x as nat)
    }
}

/// The text of `x` through `i32`'s `ToString` (its `Display` impl), which
/// writes the decimal text: a `-` for negative values, then the digits with
/// no leading zeros.
#[verifier::external_body]
pub(crate) fn i32_to_string(x: i32) -> (s: String)
    ensures
        s@ == decimal(x as int),
{
    x.to_string()
}

} // verus!
