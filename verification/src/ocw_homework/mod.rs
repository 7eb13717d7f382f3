//! The offchain-indexing pallet: a signed call records a number in the
//! offchain index under the current block.

pub mod offchain;

use crate::dispatch::{ensure_signed, signer_of, BadOrigin, BlockNumber, Origin};
use vstd::prelude::*;

verus! {

/// The offchain-index write a call asks for: `number`, under `block_number`.
#[derive(Clone, Copy, Debug, PartialEq, Eq)]
pub struct OffchainIndexWrite {
    pub block_number: BlockNumber,
    pub number: u64,
}

/// The pallet; it keeps no storage of its own.
pub struct Pallet;

impl Pallet {
    /// A signed call asks to write `number` to the offchain index under the
    /// current block; any other origin is refused. The pallet has no error of
    /// its own, so a bad origin is the only way the call fails.
    pub fn offchain_index_set(origin: Origin, block_number: BlockNumber, number: u64) -> (r: Result<
        OffchainIndexWrite,
        BadOrigin,
    >)
        ensures
            match signer_of(origin) {
                Some(_) => r == Ok::<OffchainIndexWrite, BadOrigin>(
                    OffchainIndexWrite { block_number, number },
                ),
                None => r == Err::<OffchainIndexWrite, BadOrigin>(BadOrigin),
            },
    {
        match ensure_signed(origin) {
            Ok(_signer) => Ok(OffchainIndexWrite { block_number, number }),
            Err(e) => Err(e),
        }
    }
}

} // verus!
