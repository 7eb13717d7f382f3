//! Helpers of the offchain-worker pallet.

pub mod utils;
