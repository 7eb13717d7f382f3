//! Storage layout 2: a kitty has an eight-byte name and its dna.

use super::v0::KittyDna;
use super::StorageVersion;
use vstd::prelude::*;

verus! {

/// The version of layout 2, the current one.
pub const STORAGE_VERSION: StorageVersion = 2;

/// The name of a kitty in layout 2.
pub type KittyName = [u8; 8];

/// A kitty in layout 2.
#[derive(Clone, Copy, Debug, PartialEq, Eq, Default)]
pub struct Kitty {
    pub name: KittyName,
    pub dna: KittyDna,
}

} // verus!
