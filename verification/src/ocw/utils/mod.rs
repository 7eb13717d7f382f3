//! Utilities of the offchain-worker pallet.

pub mod block_number;
