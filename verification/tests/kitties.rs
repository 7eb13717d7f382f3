use substrate_pallets::dispatch::{DispatchError, Origin};
use substrate_pallets::kitties::{Entropy, Error, Event, Kitty, KittyId, Pallet, SeedBlock};

const ACCOUNT_ID_1: u64 = 1;
const ACCOUNT_ID_2: u64 = 2;
const KITTY_ID_0: KittyId = 0;

fn entropy() -> Entropy {
    Entropy { random_seed: [7u8; 32], random_seed_block: SeedBlock::U64(1), extrinsic_index: Some(1) }
}

#[test]
fn create_kitty() {
    let mut kitties = Pallet::new();
    let signer = Origin::Signed(ACCOUNT_ID_1);

    assert_eq!(kitties.next_kitty_id(), KITTY_ID_0);

    assert_eq!(kitties.create_kitty(signer, &entropy()), Ok(()));
    assert_eq!(kitties.next_kitty_id(), KITTY_ID_0 + 1);
    assert_eq!(kitties.kitties(KITTY_ID_0).is_some(), true);
    assert_eq!(kitties.kitty_owner(KITTY_ID_0), Some(ACCOUNT_ID_1));
    assert_eq!(kitties.kitty_parents(KITTY_ID_0), None);
    assert_eq!(
        kitties.last_event(),
        Some(Event::KittyCreated {
            account: ACCOUNT_ID_1,
            kitty_id: KITTY_ID_0,
            kitty: kitties.kitties(KITTY_ID_0).unwrap(),
        })
    );

    kitties.set_next_kitty_id(KittyId::MAX);
    let last = kitties.last_event();
    assert_eq!(
        kitties.create_kitty(signer, &entropy()),
        Err(DispatchError::Module(Error::KittyIdOverflow))
    );
    assert_eq!(kitties.next_kitty_id(), KittyId::MAX);
    assert_eq!(kitties.kitties(KittyId::MAX), None);
    assert_eq!(kitties.kitty_owner(KittyId::MAX), None);
    assert_eq!(kitties.last_event(), last);
}

#[test]
fn bred_kitty() {
    let mut kitties = Pallet::new();
    let signer = Origin::Signed(ACCOUNT_ID_1);

    let parent_id_0 = KITTY_ID_0;
    let parent_id_1 = KITTY_ID_0 + 1;
    let child_id = KITTY_ID_0 + 2;

    assert_eq!(
        kitties.bred_kitty(signer, parent_id_0, parent_id_0, &entropy()),
        Err(DispatchError::Module(Error::SameParentKittyId))
    );
    assert_eq!(kitties.next_kitty_id(), KITTY_ID_0);
    assert_eq!(kitties.last_event(), None);
    assert_eq!(
        kitties.bred_kitty(signer, parent_id_0, parent_id_1, &entropy()),
        Err(DispatchError::Module(Error::KittyNotExist))
    );
    assert_eq!(kitties.next_kitty_id(), KITTY_ID_0);
    assert_eq!(kitties.last_event(), None);

    assert_eq!(kitties.create_kitty(signer, &entropy()), Ok(()));
    assert_eq!(kitties.create_kitty(signer, &entropy()), Ok(()));
    assert_eq!(kitties.next_kitty_id(), child_id);

    assert_eq!(kitties.bred_kitty(signer, parent_id_0, parent_id_1, &entropy()), Ok(()));
    assert_eq!(kitties.next_kitty_id(), child_id + 1);
    assert_eq!(kitties.kitties(child_id).is_some(), true);
    assert_eq!(kitties.kitty_owner(child_id), Some(ACCOUNT_ID_1));
    assert_eq!(kitties.kitty_parents(child_id), Some((parent_id_0, parent_id_1)));
    assert_eq!(
        kitties.last_event(),
        Some(Event::KittyBred {
            account: ACCOUNT_ID_1,
            kitty_id: child_id,
            kitty: kitties.kitties(child_id).unwrap(),
        })
    );
}

#[test]
fn transfer_kitty() {
    let mut kitties = Pallet::new();
    let signer = Origin::Signed(ACCOUNT_ID_1);
    let signer_2 = Origin::Signed(ACCOUNT_ID_2);

    assert_eq!(kitties.create_kitty(signer, &entropy()), Ok(()));
    assert_eq!(kitties.kitty_owner(KITTY_ID_0), Some(ACCOUNT_ID_1));

    let last = kitties.last_event();
    assert_eq!(
        kitties.transfer_kitty(signer_2, ACCOUNT_ID_1, KITTY_ID_0),
        Err(DispatchError::Module(Error::NotKittyOwner))
    );
    assert_eq!(kitties.kitty_owner(KITTY_ID_0), Some(ACCOUNT_ID_1));
    assert_eq!(kitties.last_event(), last);

    assert_eq!(kitties.transfer_kitty(signer, ACCOUNT_ID_2, KITTY_ID_0), Ok(()));
    assert_eq!(kitties.kitty_owner(KITTY_ID_0), Some(ACCOUNT_ID_2));
    assert_eq!(
        kitties.last_event(),
        Some(Event::KittyTransferred {
            sender: ACCOUNT_ID_1,
            recipient: ACCOUNT_ID_2,
            kitty_id: KITTY_ID_0,
        })
    );

    assert_eq!(kitties.transfer_kitty(signer_2, ACCOUNT_ID_1, KITTY_ID_0), Ok(()));
    assert_eq!(kitties.kitty_owner(KITTY_ID_0), Some(ACCOUNT_ID_1));
    assert_eq!(
        kitties.last_event(),
        Some(Event::KittyTransferred {
            sender: ACCOUNT_ID_2,
            recipient: ACCOUNT_ID_1,
            kitty_id: KITTY_ID_0,
        })
    );
}

#[test]
fn unsigned_origins_are_refused() {
    let mut kitties = Pallet::new();
    assert_eq!(kitties.create_kitty(Origin::Root, &entropy()), Err(DispatchError::BadOrigin));
    assert_eq!(kitties.create_kitty(Origin::Unsigned, &entropy()), Err(DispatchError::BadOrigin));
    assert_eq!(kitties.bred_kitty(Origin::Root, 0, 1, &entropy()), Err(DispatchError::BadOrigin));
    assert_eq!(kitties.transfer_kitty(Origin::Unsigned, 2, 0), Err(DispatchError::BadOrigin));
    assert_eq!(kitties.next_kitty_id(), 0);
    assert_eq!(kitties.last_event(), None);
}

#[test]
fn transfer_errors_in_order() {
    let mut kitties = Pallet::new();
    assert_eq!(
        kitties.transfer_kitty(Origin::Signed(1), 2, 0),
        Err(DispatchError::Module(Error::KittyNotExist))
    );
    assert_eq!(kitties.create_kitty(Origin::Signed(1), &entropy()), Ok(()));
    assert_eq!(
        kitties.transfer_kitty(Origin::Signed(1), 1, 0),
        Err(DispatchError::Module(Error::TransferKittyToOwner))
    );
    assert_eq!(kitties.kitty_owner(0), Some(1));
}

#[test]
fn breeding_with_a_missing_second_parent_is_refused() {
    let mut kitties = Pallet::new();
    assert_eq!(kitties.create_kitty(Origin::Signed(1), &entropy()), Ok(()));
    assert_eq!(
        kitties.bred_kitty(Origin::Signed(1), 0, 5, &entropy()),
        Err(DispatchError::Module(Error::KittyNotExist))
    );
    assert_eq!(kitties.next_kitty_id(), 1);
}

#[test]
fn breeding_at_the_last_id_overflows() {
    let mut kitties = Pallet::new();
    assert_eq!(kitties.create_kitty(Origin::Signed(1), &entropy()), Ok(()));
    assert_eq!(kitties.create_kitty(Origin::Signed(1), &entropy()), Ok(()));
    kitties.set_next_kitty_id(KittyId::MAX);
    assert_eq!(
        kitties.bred_kitty(Origin::Signed(1), 0, 1, &entropy()),
        Err(DispatchError::Module(Error::KittyIdOverflow))
    );
    assert_eq!(kitties.kitties(KittyId::MAX), None);
    assert_eq!(kitties.kitty_parents(KittyId::MAX), None);
}

fn expected_payload(entropy: &Entropy, account: u64) -> Vec<u8> {
    let mut bytes = entropy.random_seed.to_vec();
    match entropy.random_seed_block {
        SeedBlock::U32(b) => bytes.extend_from_slice(&b.to_le_bytes()),
        SeedBlock::U64(b) => bytes.extend_from_slice(&b.to_le_bytes()),
    }
    bytes.extend_from_slice(&account.to_le_bytes());
    match entropy.extrinsic_index {
        Some(i) => {
            bytes.push(1);
            bytes.extend_from_slice(&i.to_le_bytes());
        }
        None => bytes.push(0),
    }
    bytes
}

#[test]
fn random_genes_hash_the_encoded_seed_account_and_index() {
    let e = entropy();
    let genes = Pallet::random_kitty_genes(ACCOUNT_ID_1, &e);
    let payload = expected_payload(&e, ACCOUNT_ID_1);
    assert_eq!(payload.len(), 32 + 8 + 8 + 5);
    assert_eq!(genes, sp_io::hashing::blake2_128(&payload));
    assert_ne!(genes.to_vec(), payload[..16].to_vec());

    let e2 = Entropy { extrinsic_index: None, ..e };
    let payload2 = expected_payload(&e2, ACCOUNT_ID_2);
    assert_eq!(payload2.len(), 32 + 8 + 8 + 1);
    assert_eq!(Pallet::random_kitty_genes(ACCOUNT_ID_2, &e2), sp_io::hashing::blake2_128(&payload2));
    assert_ne!(Pallet::random_kitty_genes(ACCOUNT_ID_1, &e), Pallet::random_kitty_genes(ACCOUNT_ID_2, &e));
}

#[test]
fn created_kitty_has_the_random_genes_of_its_creator() {
    let mut kitties = Pallet::new();
    let e = entropy();
    assert_eq!(kitties.create_kitty(Origin::Signed(3), &e), Ok(()));
    assert_eq!(kitties.kitties(0), Some(Kitty(Pallet::random_kitty_genes(3, &e))));
}

#[test]
fn mixed_genes_take_bits_by_selector() {
    let selector = [0xf0u8; 16];
    let p1 = Kitty([0xaau8; 16]);
    let p2 = Kitty([0x55u8; 16]);
    assert_eq!(Pallet::mix_genes(&selector, &p1, &p2), [0xa5u8; 16]);
    assert_eq!(Pallet::mix_genes(&[0u8; 16], &p1, &p2), p2.0);
    assert_eq!(Pallet::mix_genes(&[0xffu8; 16], &p1, &p2), p1.0);
    assert_eq!(Pallet::mix_genes(&selector, &p1, &p1), p1.0);
}

#[test]
fn bred_kitty_genes_mix_parents_by_the_random_selector() {
    let mut kitties = Pallet::new();
    let e = entropy();
    let e2 = Entropy { random_seed: [9u8; 32], ..e };
    assert_eq!(kitties.create_kitty(Origin::Signed(1), &e), Ok(()));
    assert_eq!(kitties.create_kitty(Origin::Signed(1), &e2), Ok(()));
    let p1 = kitties.kitties(0).unwrap();
    let p2 = kitties.kitties(1).unwrap();
    assert_eq!(kitties.bred_kitty(Origin::Signed(2), 0, 1, &e), Ok(()));
    let selector = Pallet::random_kitty_genes(2, &e);
    let expected = Pallet::mix_genes(&selector, &p1, &p2);
    assert_eq!(Pallet::child_kitty_genes(2, &p1, &p2, &e), expected);
    assert_eq!(kitties.kitties(2), Some(Kitty(expected)));
    assert_eq!(kitties.kitty_owner(2), Some(2));
}

#[test]
fn transfer_back_restores_owner() {
    let mut kitties = Pallet::new();
    assert_eq!(kitties.create_kitty(Origin::Signed(1), &entropy()), Ok(()));
    let before = kitties.kitties(0);
    assert_eq!(kitties.transfer_kitty(Origin::Signed(1), 2, 0), Ok(()));
    assert_eq!(kitties.transfer_kitty(Origin::Signed(2), 1, 0), Ok(()));
    assert_eq!(kitties.kitty_owner(0), Some(1));
    assert_eq!(kitties.kitties(0), before);
    assert_eq!(kitties.next_kitty_id(), 1);
}

#[test]
fn random_genes_encode_a_u32_seed_block_in_four_bytes() {
    let e = Entropy { random_seed: [3u8; 32], random_seed_block: SeedBlock::U32(258), extrinsic_index: None };
    let payload = expected_payload(&e, ACCOUNT_ID_1);
    assert_eq!(payload.len(), 32 + 4 + 8 + 1);
    assert_eq!(&payload[32..36], &[2, 1, 0, 0]);
    assert_eq!(Pallet::random_kitty_genes(ACCOUNT_ID_1, &e), sp_io::hashing::blake2_128(&payload));
    let wide = Entropy { random_seed_block: SeedBlock::U64(258), ..e };
    assert_ne!(Pallet::random_kitty_genes(ACCOUNT_ID_1, &e), Pallet::random_kitty_genes(ACCOUNT_ID_1, &wide));
}
