//! Checked numeric primitives.
//!
//! Every mutation of a stored balance goes through these; unguarded
//! arithmetic on balances is a defect by construction, because wrap-on-
//! overflow behaviour differs between build configurations.

use vstd::prelude::*;

use crate::errors::ProtocolError;

verus! {

/// `a - b`, or `ArithmeticUnderflow` when the result would go below zero.
/// Never wraps, never saturates.
pub fn checked_sub(a: u64, b: u64) -> (r: Result<u64, ProtocolError>)
    ensures
        b <= a ==> r == Result::<u64, ProtocolError>::Ok((a - b) as u64),
        b > a ==> r == Result::<u64, ProtocolError>::Err(ProtocolError::ArithmeticUnderflow),
{
    if b <= a {
        Ok(a - b)
    } else {
        Err(ProtocolError::ArithmeticUnderflow)
    }
}

/// `a + b`, or `ArithmeticOverflow` when the result would exceed `u64::MAX`.
/// Never wraps, never saturates.
pub fn checked_add(a: u64, b: u64) -> (r: Result<u64, ProtocolError>)
    ensures
        a + b <= u64::MAX ==> r == Result::<u64, ProtocolError>::Ok((a + b) as u64),
        a + b > u64::MAX ==> r == Result::<u64, ProtocolError>::Err(ProtocolError::ArithmeticOverflow),
{
    if b <= u64::MAX - a {
        Ok(a + b)
    } else {
        Err(ProtocolError::ArithmeticOverflow)
    }
}

} // verus!
