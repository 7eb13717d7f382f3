//! Storage layouts of the kitties pallet and the migrations between them.
//!
//! A migration is split as the storage API splits it: a decision, from the
//! code's storage version and the one on chain, of which migration to run;
//! and, for each migration, the conversion of the drained `(id, kitty)` pairs
//! of the old layout into the pairs to insert in the new one.

pub mod v0;
pub mod v1;
pub mod v2;

pub use v2 as current_version;

use super::KittyId;
use vstd::prelude::*;

verus! {

/// A version of the pallet's storage layout.
pub type StorageVersion = u16;

/// Which conversion to run over the stored kitties.
#[derive(Clone, Copy, Debug, PartialEq, Eq)]
pub enum Migration {
    Skip,
    V0ToV1,
    V0ToV2,
    V1ToV2,
}

/// What an upgrade does: a conversion, then possibly a new on-chain version.
#[derive(Clone, Copy, Debug, PartialEq, Eq)]
pub struct UpgradePlan {
    pub migration: Migration,
    pub put_version: Option<StorageVersion>,
}

/// The upgrade to the current layout: only when the code is at the current
/// version, from layout 1 or from layout 0; the on-chain version is not
/// written.
pub open spec fn upgrade_storage_plan(
    current: StorageVersion,
    on_chain: StorageVersion,
) -> UpgradePlan {
    let migration = if current != current_version::STORAGE_VERSION {
        Migration::Skip
    } else if on_chain == v1::STORAGE_VERSION {
        Migration::V1ToV2
    } else if on_chain == v0::STORAGE_VERSION {
        Migration::V0ToV2
    } else {
        Migration::Skip
    };
    UpgradePlan { migration, put_version: None }
}

/// Decides the upgrade to the current layout.
pub fn upgrade_storage(current: StorageVersion, on_chain: StorageVersion) -> (r: UpgradePlan)
    ensures
        r == upgrade_storage_plan(current, on_chain),
{
    if current != current_version::STORAGE_VERSION {
        return UpgradePlan { migration: Migration::Skip, put_version: None };
    }
    if on_chain == v1::STORAGE_VERSION {
        UpgradePlan { migration: Migration::V1ToV2, put_version: None }
    } else if on_chain == v0::STORAGE_VERSION {
        UpgradePlan { migration: Migration::V0ToV2, put_version: None }
    } else {
        UpgradePlan { migration: Migration::Skip, put_version: None }
    }
}

/// The upgrade to layout 2 converts only when the code is at version 2 and
/// the chain at version 1 (from layout 1) or 0 (from layout 0); it never
/// writes a version.
pub proof fn lemma_upgrade_storage_plan(current: StorageVersion, on_chain: StorageVersion)
    ensures
        upgrade_storage_plan(current, on_chain).put_version is None,
        upgrade_storage_plan(current, on_chain).migration == (if current == 2 && on_chain == 1 {
            Migration::V1ToV2
        } else if current == 2 && on_chain == 0 {
            Migration::V0ToV2
        } else {
            Migration::Skip
        }),
{
}

/// The bytes `5678`, appended to a layout-1 name.
pub open spec fn v1_name_suffix() -> Seq<u8> {
    seq![0x35u8, 0x36u8, 0x37u8, 0x38u8]
}

/// The name `12345678`, given to layout-0 kitties.
pub open spec fn v0_default_v2_name() -> Seq<u8> {
    seq![0x31u8, 0x32u8, 0x33u8, 0x34u8, 0x35u8, 0x36u8, 0x37u8, 0x38u8]
}

/// A layout-2 name: the layout-1 name followed by `append`.
pub fn name_v1_to_v2(name_v1: &v1::KittyName, append: &[u8; 4]) -> (r: v2::KittyName)
    ensures
        r@ == name_v1@ + append@,
{
    let mut result: v2::KittyName = [0u8; 8];
    let mut i: usize = 0;
    while i < 4
        invariant
            0 <= i <= 4,
            forall|j: int| 0 <= j < i ==> result@[j] == name_v1@[j],
            forall|j: int| 0 <= j < i ==> result@[j + 4] == append@[j],
        decreases 4 - i,
    {
        result[i] = name_v1[i];
        result[i + 4] = append[i];
        i += 1;
    }
    assert(result@ =~= name_v1@ + append@);
    result
}

/// Converts drained layout-1 kitties to layout 2: same ids, same dna, each
/// name followed by `5678`.
pub fn v1_to_v2(drained: &Vec<(KittyId, v1::Kitty)>) -> (r: Vec<(KittyId, v2::Kitty)>)
    ensures
        r.len() == drained.len(),
        forall|i: int|
            0 <= i < r.len() ==> {
                &&& (#[trigger] r@[i]).0 == drained@[i].0
                &&& r@[i].1.name@ == drained@[i].1.name@ + v1_name_suffix()
                &&& r@[i].1.dna == drained@[i].1.dna
            },
{
    let append: [u8; 4] = [0x35u8, 0x36u8, 0x37u8, 0x38u8];
    assert(append@ =~= v1_name_suffix());
    let mut r: Vec<(KittyId, v2::Kitty)> = Vec::new();
    let mut i: usize = 0;
    while i < drained.len()
        invariant
            0 <= i <= drained.len(),
            r.len() == i,
            append@ == v1_name_suffix(),
            forall|j: int|
                0 <= j < i ==> {
                    &&& (#[trigger] r@[j]).0 == drained@[j].0
                    &&& r@[j].1.name@ == drained@[j].1.name@ + v1_name_suffix()
                    &&& r@[j].1.dna == drained@[j].1.dna
                },
        decreases drained.len() - i,
    {
        let (kitty_id, kitty_old) = drained[i];
        let kitty = v2::Kitty { name: name_v1_to_v2(&kitty_old.name, &append), dna: kitty_old.dna };
        r.push((kitty_id, kitty));
        i += 1;
    }
    r
}

/// Converts drained layout-0 kitties to layout 2: same ids, same dna, each
/// named `12345678`.
pub fn v0_to_v2(drained: &Vec<(KittyId, v0::Kitty)>) -> (r: Vec<(KittyId, v2::Kitty)>)
    ensures
        r.len() == drained.len(),
        forall|i: int|
            0 <= i < r.len() ==> {
                &&& (#[trigger] r@[i]).0 == drained@[i].0
                &&& r@[i].1.name@ == v0_default_v2_name()
                &&& r@[i].1.dna == drained@[i].1.0
            },
{
    let name: v2::KittyName = [0x31u8, 0x32u8, 0x33u8, 0x34u8, 0x35u8, 0x36u8, 0x37u8, 0x38u8];
    assert(name@ =~= v0_default_v2_name());
    let mut r: Vec<(KittyId, v2::Kitty)> = Vec::new();
    let mut i: usize = 0;
    while i < drained.len()
        invariant
            0 <= i <= drained.len(),
            r.len() == i,
            name@ == v0_default_v2_name(),
            forall|j: int|
                0 <= j < i ==> {
                    &&& (#[trigger] r@[j]).0 == drained@[j].0
                    &&& r@[j].1.name@ == v0_default_v2_name()
                    &&& r@[j].1.dna == drained@[j].1.0
                },
        decreases drained.len() - i,
    {
        let (kitty_id, kitty_old) = drained[i];
        r.push((kitty_id, v2::Kitty { name, dna: kitty_old.0 }));
        i += 1;
    }
    r
}

} // verus!
