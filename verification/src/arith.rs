//! Arbitrary-precision arithmetic on big-endian byte strings, performed by the
//! `num_bigint_dig` crate and specified over `bytes_value`.

use vstd::prelude::*;
use crate::bytes::bytes_value;

verus! {

/// The smallest prime that `num_bigint_dig::prime::next_prime` finds above its
/// argument. The search and its primality tests draw every random choice from
/// a generator seeded by the argument itself, so the result is a function of
/// the argument alone.
pub uninterp spec fn next_prime_of(n: nat) -> nat;

/// The verdict of one Miller-Rabin round with the base forced to two. The test
/// is a function of the operand alone.
pub uninterp spec fn mr_base2_of(n: nat) -> bool;

/// Relies on num_bigint_dig::BigUint::modpow: returns `(base ^ exponent) %
/// modulus` and panics only when the modulus is zero.
#[verifier::external_body]
pub(crate) fn modpow_bytes(base: &Vec<u8>, exponent: &Vec<u8>, modulus: &Vec<u8>) -> (r: Vec<u8>)
    requires
        bytes_value(modulus@) > 0,
    ensures
        bytes_value(r@) == vstd::arithmetic::power::pow(
            bytes_value(base@) as int,
            bytes_value(exponent@),
        ) % (bytes_value(modulus@) as int),
{
    let b = num_bigint_dig::BigUint::from_bytes_be(base.as_slice());
    let e = num_bigint_dig::BigUint::from_bytes_be(exponent.as_slice());
    let m = num_bigint_dig::BigUint::from_bytes_be(modulus.as_slice());
    b.modpow(&e, &m).to_bytes_be()
}

/// Relies on the `Mul` impl of num_bigint_dig::BigUint: the product of the two
/// operands.
#[verifier::external_body]
pub(crate) fn mul_bytes(a: &Vec<u8>, b: &Vec<u8>) -> (r: Vec<u8>)
    ensures
        bytes_value(r@) == bytes_value(a@) * bytes_value(b@),
{
    let x = num_bigint_dig::BigUint::from_bytes_be(a.as_slice());
    let y = num_bigint_dig::BigUint::from_bytes_be(b.as_slice());
    (&x * &y).to_bytes_be()
}

/// Relies on the `Rem` impl of num_bigint_dig::BigUint: the remainder of the
/// first operand by the second, which panics only on a zero divisor.
#[verifier::external_body]
pub(crate) fn rem_bytes(a: &Vec<u8>, m: &Vec<u8>) -> (r: Vec<u8>)
    requires
        bytes_value(m@) > 0,
    ensures
        bytes_value(r@) == bytes_value(a@) as int % bytes_value(m@) as int,
{
    let x = num_bigint_dig::BigUint::from_bytes_be(a.as_slice());
    let y = num_bigint_dig::BigUint::from_bytes_be(m.as_slice());
    (&x % &y).to_bytes_be()
}

/// Relies on the `Ord` impl of num_bigint_dig::BigUint, which orders values
/// numerically: reports whether the first operand denotes the smaller number.
#[verifier::external_body]
pub(crate) fn lt_bytes(a: &Vec<u8>, b: &Vec<u8>) -> (r: bool)
    ensures
        r == (bytes_value(a@) < bytes_value(b@)),
{
    let x = num_bigint_dig::BigUint::from_bytes_be(a.as_slice());
    let y = num_bigint_dig::BigUint::from_bytes_be(b.as_slice());
    x < y
}

/// Relies on num_bigint_dig::prime::next_prime: a probable prime above the
/// argument, at least two, and deterministic in the argument (its primality
/// tests seed their randomness from the candidate under test).
#[verifier::external_body]
pub(crate) fn next_prime_bytes(n: &Vec<u8>) -> (r: Vec<u8>)
    ensures
        bytes_value(r@) == next_prime_of(bytes_value(n@)),
        bytes_value(r@) >= 2,
        bytes_value(r@) > bytes_value(n@),
{
    let x = num_bigint_dig::BigUint::from_bytes_be(n.as_slice());
    num_bigint_dig::prime::next_prime(&x).to_bytes_be()
}

/// Relies on num_bigint_dig::prime::probably_prime_miller_rabin with one round
/// and the base forced to two: deterministic, and panics only for operands
/// below two.
#[verifier::external_body]
pub(crate) fn miller_rabin_base2(n: &Vec<u8>) -> (r: bool)
    requires
        bytes_value(n@) >= 2,
    ensures
        r == mr_base2_of(bytes_value(n@)),
{
    let x = num_bigint_dig::BigUint::from_bytes_be(n.as_slice());
    num_bigint_dig::prime::probably_prime_miller_rabin(&x, 1, true)
}

} // verus!
