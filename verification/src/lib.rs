//! Verified core logic of a set of FRAME pallets: a kitties registry with
//! breeding and transfer, its storage migrations, a proof-of-existence claim
//! registry, and the helpers used by two offchain-worker pallets.
//!
//! Each pallet is modelled as a value that owns its storage; every dispatchable
//! is a method whose contract states the new storage and the result exactly, by
//! way of the spec transition functions next to it.

pub mod dispatch;
pub mod hashing;
pub mod kitties;
pub mod ocw;
pub mod ocw_homework;
pub mod poe;
pub mod scale;
