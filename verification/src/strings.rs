//! What the library needs of strings beyond what it finds specified.

use vstd::prelude::*;

verus! {

/// `==` on string slices, which std documents as equality of their contents:
/// two slices are equal exactly when they hold the same characters.
pub assume_specification[ <str as PartialEq>::eq ](left: &str, right: &str) -> (same: bool)
    ensures
        same == (left@ == right@),
;

/// Whether `left` and `right` hold the same characters.
pub fn text_equal(left: &str, right: &str) -> (same: bool)
    ensures
        same == (left@ == right@),
{
    left.eq(right)
}

/// The character for `digit`, a number below ten.
pub open spec fn digit(digit: nat) -> char {
    ('0' as u8 + digit) as char
}

/// `number` in decimal notation, without leading zeros.
pub open spec fn digits(number: nat) -> Seq<char>
    decreases number,
{
    if number < 10 {
        seq![digit(number)]
    } else {
        digits(number / 10).push(digit(number % 10))
    }
}

/// `number` in decimal notation, with a minus sign before a negative one.
pub open spec fn decimal(number: int) -> Seq<char> {
    if number < 0 {
        seq!['-'] + digits((-number) as nat)
    } else {
        digits(number as nat)
    }
}

/// `to_string` of std on an integer, which writes it as `Display` does: in
/// decimal notation, without leading zeros, with a minus sign before a
/// negative number.
#[verifier::external_body]
pub(crate) fn decimal_string(number: i128) -> (text: String)
    ensures
        text@ == decimal(number as int),
{
    number.to_string()
}

} // verus!
