//! JSON numbers, which `serde_json` reads and writes.
use vstd::prelude::*;

use crate::compose;

verus! {

/// `serde_json::Number`: a number that is carried and never looked into.
#[verifier::external_type_specification]
#[verifier::external_body]
pub struct ExNumber(serde_json::Number);

/// The notation in which `serde_json::Number` displays itself.
pub uninterp spec fn number_text(n: serde_json::Number) -> Seq<char>;

/// What `serde_json::Number::as_u64` says of a number.
pub uninterp spec fn number_value(n: serde_json::Number) -> Option<u64>;

/// `serde_json::Number::to_string`: the notation of a number, which depends on
/// the number alone.
#[verifier::external_body]
pub(crate) fn number_notation(n: &serde_json::Number) -> (r: String)
    ensures
        r@ == number_text(*n),
{
    n.to_string()
}

/// `serde_json::Number::as_u64`: the value of a number, where it is an integer
/// from 0 to `u64::MAX`.
#[verifier::external_body]
pub(crate) fn number_as_u64(n: &serde_json::Number) -> (r: Option<u64>)
    ensures
        r == number_value(*n),
{
    n.as_u64()
}

/// `serde_json::Number::from`: the number that has the given value and is
/// written in decimal.
#[verifier::external_body]
pub(crate) fn number_from_u64(n: u64) -> (r: serde_json::Number)
    ensures
        number_value(r) == Some(n),
        number_text(r) == compose::decimal(n as nat),
{
    serde_json::Number::from(n)
}

/// `serde_json::Number::clone`: the same number again.
pub assume_specification[ <serde_json::Number as Clone>::clone ](n: &serde_json::Number) -> (r:
    serde_json::Number)
    ensures
        r == *n,
;

} // verus!
