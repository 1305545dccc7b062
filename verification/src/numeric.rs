//! Addition that fails closed.

use vstd::prelude::*;
use crate::types::TradeError;

verus! {

/// The sum of `a` and `b`, or `OverflowError` when it does not fit.
pub fn checked_add(a: u32, b: u32) -> (sum: Result<u32, TradeError>)
    ensures
        a + b <= u32::MAX ==> sum == Ok::<u32, TradeError>((a + b) as u32),
        a + b > u32::MAX ==> sum == Err::<u32, TradeError>(TradeError::OverflowError),
{
    match a.checked_add(b) {
        Some(c) => Ok(c),
        None => Err(TradeError::OverflowError),
    }
}

} // verus!
