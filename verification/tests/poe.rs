use substrate_pallets::dispatch::{DispatchError, Origin};
use substrate_pallets::poe::{BoundedVec, Error, Pallet};

const ACCOUNT_ID_1: u64 = 1;
const ACCOUNT_ID_2: u64 = 2;
const ACCOUNT_ID_3: u64 = 3;
const BLOCK_NUMBER: u64 = 1;
const MAX_CLAIM_LENGTH: u32 = 10;

fn new_claim() -> BoundedVec {
    return BoundedVec::try_from(vec![1, 2, 3, 4, 5, 6, 7, 8, 9, 10], 10).unwrap();
}

#[test]
fn create_claim_works() {
    let mut poe = Pallet::new(MAX_CLAIM_LENGTH);
    let claim = new_claim();
    let signer = Origin::Signed(ACCOUNT_ID_1);

    assert_eq!(poe.create_claim(signer, claim.clone(), BLOCK_NUMBER), Ok(()));
    assert_eq!(poe.proofs(&claim), Some((ACCOUNT_ID_1, BLOCK_NUMBER)));
}

#[test]
fn create_claim_failed_when_claim_exist() {
    let mut poe = Pallet::new(MAX_CLAIM_LENGTH);
    let claim = new_claim();
    let signer = Origin::Signed(ACCOUNT_ID_1);

    let _ = poe.create_claim(signer, claim.clone(), BLOCK_NUMBER);
    assert_eq!(
        poe.create_claim(signer, claim.clone(), BLOCK_NUMBER),
        Err(DispatchError::Module(Error::ClaimAlreadyExist))
    );
    assert_eq!(poe.proofs(&claim), Some((ACCOUNT_ID_1, BLOCK_NUMBER)));
}

#[test]
fn revoke_claim_works() {
    let mut poe = Pallet::new(MAX_CLAIM_LENGTH);
    let claim = new_claim();
    let signer = Origin::Signed(ACCOUNT_ID_1);

    assert_eq!(poe.create_claim(signer, claim.clone(), BLOCK_NUMBER), Ok(()));
    assert_eq!(poe.revoke_claim(signer, claim.clone()), Ok(()));
    assert_eq!(poe.proofs(&claim), None);
}

#[test]
fn revoke_claim_failed_when_claim_not_exist() {
    let mut poe = Pallet::new(MAX_CLAIM_LENGTH);
    let claim = new_claim();
    let signer = Origin::Signed(ACCOUNT_ID_1);

    assert_eq!(
        poe.revoke_claim(signer, claim.clone()),
        Err(DispatchError::Module(Error::ClaimNotExist))
    );
    assert_eq!(poe.proofs(&claim), None);
}

#[test]
fn revoke_claim_failed_when_not_owner() {
    let mut poe = Pallet::new(MAX_CLAIM_LENGTH);
    let claim = new_claim();
    let signer = Origin::Signed(ACCOUNT_ID_1);
    let signer_2 = Origin::Signed(ACCOUNT_ID_2);

    assert_eq!(poe.create_claim(signer, claim.clone(), BLOCK_NUMBER), Ok(()));
    assert_eq!(
        poe.revoke_claim(signer_2, claim.clone()),
        Err(DispatchError::Module(Error::NotClaimOwner))
    );
    assert_eq!(poe.proofs(&claim), Some((ACCOUNT_ID_1, BLOCK_NUMBER)));
}

#[test]
fn transfer_claim_works() {
    let mut poe = Pallet::new(MAX_CLAIM_LENGTH);
    let claim = new_claim();
    let signer = Origin::Signed(ACCOUNT_ID_1);

    assert_eq!(poe.create_claim(signer, claim.clone(), BLOCK_NUMBER), Ok(()));
    assert_eq!(poe.transfer_claim(signer, ACCOUNT_ID_2, claim.clone(), BLOCK_NUMBER), Ok(()));
    assert_eq!(poe.proofs(&claim), Some((ACCOUNT_ID_2, BLOCK_NUMBER)));
}

#[test]
fn transfer_claim_failed_when_claim_not_exist() {
    let mut poe = Pallet::new(MAX_CLAIM_LENGTH);
    let claim = new_claim();
    let signer = Origin::Signed(ACCOUNT_ID_1);

    assert_eq!(
        poe.transfer_claim(signer, ACCOUNT_ID_2, claim.clone(), BLOCK_NUMBER),
        Err(DispatchError::Module(Error::ClaimNotExist))
    );
    assert_eq!(poe.proofs(&claim), None);
}

#[test]
fn transfer_claim_failed_when_not_owner() {
    let mut poe = Pallet::new(MAX_CLAIM_LENGTH);
    let claim = new_claim();
    let signer = Origin::Signed(ACCOUNT_ID_1);
    let signer_2 = Origin::Signed(ACCOUNT_ID_2);

    assert_eq!(poe.create_claim(signer, claim.clone(), BLOCK_NUMBER), Ok(()));
    assert_eq!(
        poe.transfer_claim(signer_2, ACCOUNT_ID_3, claim.clone(), BLOCK_NUMBER),
        Err(DispatchError::Module(Error::NotClaimOwner))
    );
    assert_eq!(poe.proofs(&claim), Some((ACCOUNT_ID_1, BLOCK_NUMBER)));
}

#[test]
fn transfer_claim_failed_when_transfer_to_owner() {
    let mut poe = Pallet::new(MAX_CLAIM_LENGTH);
    let claim = new_claim();
    let signer = Origin::Signed(ACCOUNT_ID_1);

    assert_eq!(poe.create_claim(signer, claim.clone(), BLOCK_NUMBER), Ok(()));
    assert_eq!(
        poe.transfer_claim(signer, ACCOUNT_ID_1, claim.clone(), BLOCK_NUMBER),
        Err(DispatchError::Module(Error::TransferToOwner))
    );
    assert_eq!(poe.proofs(&claim), Some((ACCOUNT_ID_1, BLOCK_NUMBER)));
}

#[test]
fn claims_longer_than_the_bound_are_refused() {
    let items = vec![0u8; 11];
    assert_eq!(BoundedVec::try_from(items.clone(), 10).unwrap_err(), items);
    let b = BoundedVec::try_from(vec![0u8; 10], 10).unwrap();
    assert_eq!(b.bound(), 10);
    assert_eq!(b.as_slice(), &[0u8; 10][..]);
    let empty = BoundedVec::try_from(vec![], 0).unwrap();
    assert_eq!(empty.as_slice().len(), 0);
}

#[test]
fn claims_are_kept_apart() {
    let mut poe = Pallet::new(MAX_CLAIM_LENGTH);
    let a = BoundedVec::try_from(vec![1, 2, 3], 10).unwrap();
    let b = BoundedVec::try_from(vec![1, 2], 10).unwrap();
    let c = BoundedVec::try_from(vec![1, 2, 4], 10).unwrap();
    assert_eq!(poe.create_claim(Origin::Signed(1), a.clone(), 5), Ok(()));
    assert_eq!(poe.create_claim(Origin::Signed(2), b.clone(), 6), Ok(()));
    assert_eq!(poe.create_claim(Origin::Signed(3), c.clone(), 7), Ok(()));
    assert_eq!(poe.revoke_claim(Origin::Signed(2), b.clone()), Ok(()));
    assert_eq!(poe.proofs(&a), Some((1, 5)));
    assert_eq!(poe.proofs(&b), None);
    assert_eq!(poe.proofs(&c), Some((3, 7)));
    assert_eq!(poe.transfer_claim(Origin::Signed(3), 1, c.clone(), 8), Ok(()));
    assert_eq!(poe.proofs(&c), Some((1, 8)));
    assert_eq!(poe.proofs(&a), Some((1, 5)));
}

#[test]
fn revoke_undoes_create_and_allows_reclaiming() {
    let mut poe = Pallet::new(MAX_CLAIM_LENGTH);
    let claim = new_claim();
    assert_eq!(poe.create_claim(Origin::Signed(1), claim.clone(), 3), Ok(()));
    assert_eq!(poe.revoke_claim(Origin::Signed(1), claim.clone()), Ok(()));
    assert_eq!(poe.proofs(&claim), None);
    assert_eq!(poe.create_claim(Origin::Signed(2), claim.clone(), 4), Ok(()));
    assert_eq!(poe.proofs(&claim), Some((2, 4)));
}

#[test]
fn transfer_back_records_the_later_block() {
    let mut poe = Pallet::new(MAX_CLAIM_LENGTH);
    let claim = new_claim();
    assert_eq!(poe.create_claim(Origin::Signed(1), claim.clone(), 3), Ok(()));
    assert_eq!(poe.transfer_claim(Origin::Signed(1), 2, claim.clone(), 4), Ok(()));
    assert_eq!(poe.transfer_claim(Origin::Signed(2), 1, claim.clone(), 9), Ok(()));
    assert_eq!(poe.proofs(&claim), Some((1, 9)));
}

#[test]
fn poe_refuses_unsigned_origins() {
    let mut poe = Pallet::new(MAX_CLAIM_LENGTH);
    let claim = new_claim();
    assert_eq!(poe.create_claim(Origin::Root, claim.clone(), 1), Err(DispatchError::BadOrigin));
    assert_eq!(poe.revoke_claim(Origin::Unsigned, claim.clone()), Err(DispatchError::BadOrigin));
    assert_eq!(
        poe.transfer_claim(Origin::Root, 2, claim.clone(), 1),
        Err(DispatchError::BadOrigin)
    );
    assert_eq!(poe.proofs(&claim), None);
}

#[test]
fn pallet_keeps_its_configured_maximum() {
    let mut poe = Pallet::new(MAX_CLAIM_LENGTH);
    assert_eq!(poe.max_claim_length(), MAX_CLAIM_LENGTH);
    let claim = new_claim();
    assert!(claim.as_slice().len() <= poe.max_claim_length() as usize);
    assert_eq!(poe.create_claim(Origin::Signed(1), claim.clone(), 2), Ok(()));
    assert_eq!(poe.max_claim_length(), MAX_CLAIM_LENGTH);
}
