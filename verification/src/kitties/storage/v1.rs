//! Storage layout 1: a kitty has a four-byte name and its dna; and the
//! upgrade to it from layout 0.

use super::v0;
use super::v0::KittyDna;
use super::{Migration, StorageVersion, UpgradePlan};
use crate::kitties::KittyId;
use vstd::prelude::*;

verus! {

/// The version of layout 1.
pub const STORAGE_VERSION: StorageVersion = 1;

/// The name of a kitty in layout 1.
pub type KittyName = [u8; 4];

/// A kitty in layout 1.
#[derive(Clone, Copy, Debug, PartialEq, Eq, Default)]
pub struct Kitty {
    pub name: KittyName,
    pub dna: KittyDna,
}

/// The upgrade to layout 1: only when the code is at version 1 and the chain
/// at version 0; it then writes version 1 on chain.
pub open spec fn upgrade_plan(current: StorageVersion, on_chain: StorageVersion) -> UpgradePlan {
    if current == STORAGE_VERSION && on_chain == v0::STORAGE_VERSION {
        UpgradePlan { migration: Migration::V0ToV1, put_version: Some(STORAGE_VERSION) }
    } else {
        UpgradePlan { migration: Migration::Skip, put_version: None }
    }
}

/// Decides the upgrade to layout 1.
pub fn upgrade(current: StorageVersion, on_chain: StorageVersion) -> (r: UpgradePlan)
    ensures
        r == upgrade_plan(current, on_chain),
{
    if current != STORAGE_VERSION {
        return UpgradePlan { migration: Migration::Skip, put_version: None };
    }
    if on_chain == v0::STORAGE_VERSION {
        UpgradePlan { migration: Migration::V0ToV1, put_version: Some(STORAGE_VERSION) }
    } else {
        UpgradePlan { migration: Migration::Skip, put_version: None }
    }
}

/// The name `____`, given to layout-0 kitties.
pub open spec fn v0_default_v1_name() -> Seq<u8> {
    seq![0x5fu8, 0x5fu8, 0x5fu8, 0x5fu8]
}

/// Converts drained layout-0 kitties to layout 1: same ids, same dna, each
/// named `____`.
pub fn v0_to_v1(drained: &Vec<(KittyId, v0::Kitty)>) -> (r: Vec<(KittyId, Kitty)>)
    ensures
        r.len() == drained.len(),
        forall|i: int|
            0 <= i < r.len() ==> {
                &&& (#[trigger] r@[i]).0 == drained@[i].0
                &&& r@[i].1.name@ == v0_default_v1_name()
                &&& r@[i].1.dna == drained@[i].1.0
            },
{
    let name: KittyName = [0x5fu8, 0x5fu8, 0x5fu8, 0x5fu8];
    assert(name@ =~= v0_default_v1_name());
    let mut r: Vec<(KittyId, Kitty)> = Vec::new();
    let mut i: usize = 0;
    while i < drained.len()
        invariant
            0 <= i <= drained.len(),
            r.len() == i,
            name@ == v0_default_v1_name(),
            forall|j: int|
                0 <= j < i ==> {
                    &&& (#[trigger] r@[j]).0 == drained@[j].0
                    &&& r@[j].1.name@ == v0_default_v1_name()
                    &&& r@[j].1.dna == drained@[j].1.0
                },
        decreases drained.len() - i,
    {
        let (kitty_id, kitty_v0) = drained[i];
        r.push((kitty_id, Kitty { name, dna: kitty_v0.0 }));
        i += 1;
    }
    r
}

/// The upgrade to layout 1 converts from layout 0 and writes version 1 only
/// when the code is at version 1 and the chain at version 0; otherwise it
/// does nothing.
pub proof fn lemma_upgrade_plan(current: StorageVersion, on_chain: StorageVersion)
    ensures
        upgrade_plan(current, on_chain) == (if current == 1 && on_chain == 0 {
            UpgradePlan { migration: Migration::V0ToV1, put_version: Some(1) }
        } else {
            UpgradePlan { migration: Migration::Skip, put_version: None }
        }),
{
}

/// Once the upgrade to layout 1 has run and written its version, running it
/// again does nothing.
pub proof fn lemma_upgrade_runs_once(current: StorageVersion, on_chain: StorageVersion)
    requires
        upgrade_plan(current, on_chain).put_version is Some,
    ensures
        upgrade_plan(current, upgrade_plan(current, on_chain).put_version.unwrap()).migration
            == Migration::Skip,
{
}

} // verus!
