//! Splitting a signed offset into its sign and its size.
//!
//! The size of `i64::MIN` does not fit in an `i64`, so it cannot be had by
//! negating: it is built as one more than `i64::MAX`, in `u64`.

use vstd::prelude::*;

verus! {

/// A signed number as its sign and its absolute value.
#[derive(Debug, Clone, Copy, PartialEq, Eq)]
pub enum SignedAbsResult<T> {
    /// Below zero, by this much.
    Negative(T),
    Zero,
    /// Above zero, by this much.
    Positive(T),
}

/// The sign of `n` and how far `n` is from zero.
pub open spec fn sign_and_magnitude(n: i64) -> SignedAbsResult<u64> {
    if n > 0 {
        SignedAbsResult::Positive(n as u64)
    } else if n == 0 {
        SignedAbsResult::Zero
    } else {
        SignedAbsResult::Negative((0 - n) as u64)
    }
}

/// `num_traits::Signed::signum` for `i64`: 1 for a number above zero, 0 for
/// zero, -1 for a number below zero.
#[verifier::external_body]
fn signum(n: i64) -> (sign: i64)
    ensures
        n > 0 ==> sign == 1,
        n == 0 ==> sign == 0,
        n < 0 ==> sign == -1,
{
    num_traits::Signed::signum(&n)
}

/// `num_traits::Signed::abs` for `i64`: the number itself, negated if it is
/// below zero. Negating `i64::MIN` overflows, so that input is left out.
#[verifier::external_body]
fn abs(n: i64) -> (size: i64)
    requires
        n != i64::MIN,
    ensures
        n >= 0 ==> size == n,
        n < 0 ==> size == 0 - n,
{
    num_traits::Signed::abs(&n)
}

/// `num_traits::NumCast::from` to `u64`, given an `i64`: the same number if
/// it is not below zero, and nothing if it is.
#[verifier::external_body]
fn cast_to_u64(n: i64) -> (cast: Option<u64>)
    ensures
        n >= 0 ==> cast == Some(n as u64),
        n < 0 ==> cast is None,
{
    <u64 as num_traits::NumCast>::from(n)
}

/// Returns the absolute value of a signed number, along with its sign.
///
/// Unlike a plain `abs`, this is right for `i64::MIN` too.
pub fn abs_sign_tuple(signed_number: i64) -> (parts: SignedAbsResult<u64>)
    ensures
        parts == sign_and_magnitude(signed_number),
{
    let sign = signum(signed_number);
    if sign == 1 {
        SignedAbsResult::Positive(cast_to_u64(abs(signed_number)).unwrap())
    } else if sign == 0 {
        SignedAbsResult::Zero
    } else if signed_number == i64::MIN {
        SignedAbsResult::Negative(cast_to_u64(i64::MAX).unwrap() + 1)
    } else {
        SignedAbsResult::Negative(cast_to_u64(abs(signed_number)).unwrap())
    }
}

/// Where a cursor at `position` comes to stand when it moves by `offset`:
/// the exact sum, if that is a position, and nothing if it is not.
pub open spec fn moved_by(position: nat, offset: i64) -> Option<u64> {
    if 0 <= position + offset <= u64::MAX {
        Some((position + offset) as u64)
    } else {
        None
    }
}

/// Computes where a cursor at `position` stands after a seek by `offset`
/// relative to it.
pub fn relative_seek_target(position: u64, offset: i64) -> (target: Option<u64>)
    ensures
        target == moved_by(position as nat, offset),
{
    match abs_sign_tuple(offset) {
        SignedAbsResult::Zero => Some(position),
        SignedAbsResult::Positive(size) => position.checked_add(size),
        SignedAbsResult::Negative(size) => position.checked_sub(size),
    }
}

} // verus!
