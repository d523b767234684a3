//! The trusted boundary around `num_bigint::BigInt`.
//!
//! The engine's state variables are unbounded integers, so the arithmetic
//! itself is done by `num_bigint`. Each operation the engine needs stands
//! here behind one wrapper whose contract states, over the uninterpreted
//! integer value `big_value`, exactly what the crate's source shows the
//! operation to compute.

use num_bigint::BigInt;
use vstd::prelude::*;

verus! {

#[verifier::external_type_specification]
#[verifier::external_body]
pub struct ExBigInt(BigInt);

/// The integer value that a `BigInt` holds.
pub uninterp spec fn big_value(b: BigInt) -> int;

/// Integer division with the quotient rounded toward zero, the rule that
/// `BigInt` division follows when the divisor is positive.
pub open spec fn trunc_div(a: int, b: int) -> int
    recommends
        b > 0,
{
    if a >= 0 {
        a / b
    } else {
        -((-a) / b)
    }
}

/// Relies on `<BigInt as From<u64>>::from`: the integer with exactly that value.
#[verifier::external_body]
pub(crate) fn big_from_u64(v: u64) -> (r: BigInt)
    ensures
        big_value(r) == v as int,
{
    BigInt::from(v)
}

/// Relies on `Add for &BigInt`: exact integer addition.
#[verifier::external_body]
pub(crate) fn big_add(a: &BigInt, b: &BigInt) -> (r: BigInt)
    ensures
        big_value(r) == big_value(*a) + big_value(*b),
{
    a + b
}

/// Relies on `Sub for &BigInt`: exact integer subtraction.
#[verifier::external_body]
pub(crate) fn big_sub(a: &BigInt, b: &BigInt) -> (r: BigInt)
    ensures
        big_value(r) == big_value(*a) - big_value(*b),
{
    a - b
}

/// Relies on `Mul for &BigInt`: exact integer multiplication.
#[verifier::external_body]
pub(crate) fn big_mul(a: &BigInt, b: &BigInt) -> (r: BigInt)
    ensures
        big_value(r) == big_value(*a) * big_value(*b),
{
    a * b
}

/// Relies on `Div for &BigInt`: `div_rem` divides the magnitudes and
/// reapplies the sign, so the quotient is truncated toward zero. A zero
/// divisor panics, which the precondition rules out.
#[verifier::external_body]
pub(crate) fn big_div(a: &BigInt, b: &BigInt) -> (r: BigInt)
    requires
        big_value(*b) > 0,
    ensures
        big_value(r) == trunc_div(big_value(*a), big_value(*b)),
{
    a / b
}

/// Relies on `Ord for BigInt`: the comparison agrees with the integer order
/// (signs first, then magnitudes).
#[verifier::external_body]
pub(crate) fn big_lt(a: &BigInt, b: &BigInt) -> (r: bool)
    ensures
        r == (big_value(*a) < big_value(*b)),
{
    a < b
}

} // verus!
