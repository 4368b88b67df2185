//! Texts: telling whether two are the same, and writing a number.

use vstd::prelude::*;

verus! {

/// The decimal digit for a value from 0 to 9.
pub open spec fn digit(value: nat) -> char {
    (48 + value) as u8 as char
}

/// A number written in decimal digits, without leading zeros.
pub open spec fn decimal(value: nat) -> Seq<char>
    decreases value,
{
    if value < 10 {
        seq![digit(value)]
    } else {
        decimal(value / 10).push(digit(value % 10))
    }
}

/// Calls `str::eq`. Trusted: two texts are equal when they hold the same
/// characters.
#[verifier::external_body]
pub(crate) fn same_text(left: &str, right: &str) -> (same: bool)
    ensures
        same == (left@ == right@),
{
    left == right
}

/// Calls `ToString::to_string` on a `u64`. Trusted: the text holds the
/// decimal digits of the number, without leading zeros.
#[verifier::external_body]
pub(crate) fn decimal_text(value: u64) -> (text: String)
    ensures
        text@ == decimal(value as nat),
{
    value.to_string()
}

} // verus!
