//! Unbounded natural numbers, as `num`'s `BigUint` computes with them.
//!
//! The type is opaque to the verifier: what is known of a number is its
//! value, and of each operation what the contracts below claim.

use vstd::prelude::*;
use vstd::arithmetic::power2::pow2;
use std::ops::{Mul, Rem, Shr};
use num::{Integer, One, Zero};

verus! {

/// `num::BigUint`: a natural number of any size.
#[verifier::external_type_specification]
#[verifier::external_body]
pub struct ExBigUint(num::BigUint);

/// The natural number that a `BigUint` holds.
pub uninterp spec fn value_of(number: num::BigUint) -> nat;

/// The number that `bytes` spell in base 256, most significant byte first.
pub open spec fn be_value(bytes: Seq<u8>) -> nat
    decreases bytes.len(),
{
    if bytes.len() == 0 {
        0
    } else {
        be_value(bytes.drop_last()) * 256 + bytes.last() as nat
    }
}

/// `BigUint::from_bytes_be`: the number that the bytes spell, most
/// significant byte first; no bytes spell zero.
#[verifier::external_body]
pub(crate) fn from_bytes_be(bytes: &[u8]) -> (number: num::BigUint)
    ensures
        value_of(number) == be_value(bytes@),
{
    num::BigUint::from_bytes_be(bytes)
}

/// `BigUint::to_bytes_be`: the shortest spelling of the number, most
/// significant byte first, and the single byte 0 for zero.
#[verifier::external_body]
pub(crate) fn to_bytes_be(number: &num::BigUint) -> (bytes: Vec<u8>)
    ensures
        be_value(bytes@) == value_of(*number),
        bytes@.len() >= 1,
        bytes@[0] == 0 ==> bytes@.len() == 1,
{
    number.to_bytes_be()
}

/// `One::one` of `BigUint`: the number 1.
#[verifier::external_body]
pub(crate) fn one() -> (number: num::BigUint)
    ensures
        value_of(number) == 1,
{
    One::one()
}

/// `Zero::is_zero` of `BigUint`.
#[verifier::external_body]
pub(crate) fn is_zero(number: &num::BigUint) -> (zero: bool)
    ensures
        zero == (value_of(*number) == 0),
{
    number.is_zero()
}

/// `Integer::is_odd` of `BigUint`: whether 2 does not divide the number.
#[verifier::external_body]
pub(crate) fn is_odd(number: &num::BigUint) -> (odd: bool)
    ensures
        odd == (value_of(*number) % 2 == 1),
{
    number.is_odd()
}

/// `Mul<&BigUint>` of `&BigUint`: the product.
#[verifier::external_body]
pub(crate) fn mul(left: &num::BigUint, right: &num::BigUint) -> (product: num::BigUint)
    ensures
        value_of(product) == value_of(*left) * value_of(*right),
{
    left.mul(right)
}

/// `Rem<&BigUint>` of `BigUint`: the remainder of the division. The
/// outside function panics on a zero modulus.
#[verifier::external_body]
pub(crate) fn rem(number: num::BigUint, modulus: &num::BigUint) -> (remainder: num::BigUint)
    requires
        value_of(*modulus) != 0,
    ensures
        value_of(remainder) == value_of(number) % value_of(*modulus),
{
    number.rem(modulus)
}

/// `Shr<u32>` of `BigUint`: the number without its `bits` lowest bits.
#[verifier::external_body]
pub(crate) fn shr(number: num::BigUint, bits: u32) -> (shifted: num::BigUint)
    ensures
        value_of(shifted) == value_of(number) / pow2(bits as nat),
{
    number.shr(bits)
}

/// `Clone` of `BigUint`: the same number.
#[verifier::external_body]
pub(crate) fn copy(number: &num::BigUint) -> (same: num::BigUint)
    ensures
        value_of(same) == value_of(*number),
{
    number.clone()
}

} // verus!
