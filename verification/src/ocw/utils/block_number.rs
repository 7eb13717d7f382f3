//! Block-number helpers.

use crate::dispatch::BlockNumber;
use vstd::prelude::*;

verus! {

/// Whether `block_number` is odd.
pub fn is_odd_block_number(block_number: BlockNumber) -> (r: bool)
    ensures
        r == (block_number % 2 == 1),
{
    block_number % 2 != 0
}

} // verus!
