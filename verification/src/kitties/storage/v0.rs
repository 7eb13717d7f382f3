//! Storage layout 0: a kitty is its dna.

use super::StorageVersion;
use vstd::prelude::*;

verus! {

/// The version of layout 0.
pub const STORAGE_VERSION: StorageVersion = 0;

/// The dna of a kitty.
pub type KittyDna = [u8; 16];

/// A kitty in layout 0.
#[derive(Clone, Copy, Debug, PartialEq, Eq, Default)]
pub struct Kitty(pub KittyDna);

} // verus!
