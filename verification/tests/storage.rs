use substrate_pallets::kitties::storage::{
    name_v1_to_v2, upgrade_storage, v0, v0_to_v2, v1, v1_to_v2, v2, Migration, UpgradePlan,
};

#[test]
fn upgrade_storage_picks_the_migration_by_on_chain_version() {
    let skip = UpgradePlan { migration: Migration::Skip, put_version: None };
    assert_eq!(
        upgrade_storage(v2::STORAGE_VERSION, v1::STORAGE_VERSION),
        UpgradePlan { migration: Migration::V1ToV2, put_version: None }
    );
    assert_eq!(
        upgrade_storage(v2::STORAGE_VERSION, v0::STORAGE_VERSION),
        UpgradePlan { migration: Migration::V0ToV2, put_version: None }
    );
    assert_eq!(upgrade_storage(v2::STORAGE_VERSION, v2::STORAGE_VERSION), skip);
    assert_eq!(upgrade_storage(v1::STORAGE_VERSION, v0::STORAGE_VERSION), skip);
    assert_eq!(upgrade_storage(3, 1), skip);
}

#[test]
fn v1_upgrade_runs_once_and_writes_its_version() {
    assert_eq!(
        v1::upgrade(v1::STORAGE_VERSION, v0::STORAGE_VERSION),
        UpgradePlan { migration: Migration::V0ToV1, put_version: Some(1) }
    );
    assert_eq!(
        v1::upgrade(v1::STORAGE_VERSION, 1),
        UpgradePlan { migration: Migration::Skip, put_version: None }
    );
    assert_eq!(
        v1::upgrade(v2::STORAGE_VERSION, v0::STORAGE_VERSION),
        UpgradePlan { migration: Migration::Skip, put_version: None }
    );
}

#[test]
fn name_v1_to_v2_appends() {
    assert_eq!(name_v1_to_v2(b"abcd", b"5678"), *b"abcd5678");
}

#[test]
fn v1_to_v2_keeps_ids_and_dna() {
    let drained = vec![
        (3u32, v1::Kitty { name: *b"tom_", dna: [1u8; 16] }),
        (9u32, v1::Kitty { name: *b"jer_", dna: [2u8; 16] }),
    ];
    let migrated = v1_to_v2(&drained);
    assert_eq!(
        migrated,
        vec![
            (3u32, v2::Kitty { name: *b"tom_5678", dna: [1u8; 16] }),
            (9u32, v2::Kitty { name: *b"jer_5678", dna: [2u8; 16] }),
        ]
    );
    assert_eq!(v1_to_v2(&vec![]), vec![]);
}

#[test]
fn v0_migrations_name_kitties() {
    let drained = vec![(0u32, v0::Kitty([5u8; 16])), (1u32, v0::Kitty([6u8; 16]))];
    assert_eq!(
        v0_to_v2(&drained),
        vec![
            (0u32, v2::Kitty { name: *b"12345678", dna: [5u8; 16] }),
            (1u32, v2::Kitty { name: *b"12345678", dna: [6u8; 16] }),
        ]
    );
    assert_eq!(
        v1::v0_to_v1(&drained),
        vec![
            (0u32, v1::Kitty { name: *b"____", dna: [5u8; 16] }),
            (1u32, v1::Kitty { name: *b"____", dna: [6u8; 16] }),
        ]
    );
}
