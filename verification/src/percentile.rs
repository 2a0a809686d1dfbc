//! The CAR25: the compound annual return that a quarter of the simulated equity
//! paths of one repetition do not exceed, read from the sorted returns.
use vstd::prelude::*;
use crate::error::RiskNormalizationError;

verus! {

/// Where the CAR25 stands among `len` returns sorted in ascending order: the
/// ceiling of a quarter of `len`, less one, and 0 when there is nothing.
pub open spec fn car25_position(len: nat) -> nat {
    if len == 0 {
        0
    } else {
        ((len + 3) / 4 - 1) as nat
    }
}

/// The position of the CAR25 among `len` sorted returns. For a non-empty list
/// it is a position of the list, and the entries up to it are at least a
/// quarter of the list while those before it are less than a quarter.
pub fn car25_index(len: usize) -> (i: usize)
    ensures
        i == car25_position(len as nat),
        len > 0 ==> i < len,
        len > 0 ==> 4 * (i + 1) >= len,
        4 * i < len || len == 0,
{
    let quarter = len / 4;
    let rounded_up = if len % 4 == 0 {
        quarter
    } else {
        quarter + 1
    };
    if rounded_up == 0 {
        0
    } else {
        rounded_up - 1
    }
}

/// The CAR25 of one repetition, given its simulated returns sorted in ascending
/// order; an error naming the repetition when there are no returns.
pub fn select_car25<T: Copy>(sorted_returns: &Vec<T>, repetition: usize) -> (r: Result<
    T,
    RiskNormalizationError,
>)
    ensures
        (r is Ok) == (sorted_returns@.len() > 0),
        r is Ok ==> r->Ok_0 == sorted_returns@[car25_position(sorted_returns@.len()) as int],
        r is Err ==> r->Err_0 == (RiskNormalizationError::Car25Unavailable { repetition }),
{
    let i = car25_index(sorted_returns.len());
    if i < sorted_returns.len() {
        Ok(sorted_returns[i])
    } else {
        Err(RiskNormalizationError::Car25Unavailable { repetition })
    }
}

} // verus!
