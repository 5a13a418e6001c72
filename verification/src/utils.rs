//! Small helpers for callers of the query builder.
use vstd::prelude::*;

verus! {

/// Whether a count deserves a notice: EDGAR hands out filings in tens, so a
/// count that is no multiple of ten is rounded down.
pub fn info_multiples_of_10(quantity: u8) -> (notice: bool)
    ensures
        notice == (quantity % 10 > 0),
{
    let multiple_of_10: u8 = quantity % 10;
    multiple_of_10 > 0
}

} // verus!
