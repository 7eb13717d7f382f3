//! The kitties pallet: accounts create kitties with random genes, breed a
//! child from two distinct kitties, and transfer kitties they own.
//!
//! `Pallet` owns the pallet's storage (`NextKittyId`, `Kitties`, `KittyOwner`,
//! `KittyParents`) and the events it deposits. Its view is `KittiesState`;
//! each dispatchable's contract is one of the spec transitions
//! `create_kitty_step`, `bred_kitty_step` and `transfer_kitty_step`.

pub mod laws;
pub mod storage;

use crate::dispatch::{ensure_signed, signer_of, AccountId, DispatchError, Origin};
use crate::hashing::{blake2_128, blake2_128_digest};
use crate::scale::{
    encode_seeded_payload_u32, encode_seeded_payload_u64, le_bytes, seeded_payload_encoding,
};
use std::collections::HashMap;
use vstd::prelude::*;

verus! {

broadcast use vstd::std_specs::hash::group_hash_axioms;

/// The identifier of a kitty.
pub type KittyId = u32;

/// The genes of a kitty.
pub type KittyGenes = [u8; 16];

/// A kitty: its genes.
#[derive(Clone, Copy, Debug, PartialEq, Eq, Default)]
pub struct Kitty(pub KittyGenes);

impl View for Kitty {
    type V = Seq<u8>;

    open spec fn view(&self) -> Seq<u8> {
        self.0@
    }
}

/// The block at which the randomness seed was taken, in the width of the
/// runtime's block numbers.
#[derive(Clone, Copy, Debug, PartialEq, Eq)]
pub enum SeedBlock {
    U32(u32),
    U64(u64),
}

/// The SCALE encoding of a seed block: its little-endian bytes, as many as
/// its width.
pub open spec fn seed_block_encoding(block: SeedBlock) -> Seq<u8> {
    match block {
        SeedBlock::U32(b) => le_bytes(b as nat, 4),
        SeedBlock::U64(b) => le_bytes(b as nat, 8),
    }
}

/// What the runtime supplies to make genes random: the seed of its randomness
/// source (a hash and the block it was taken at) and the index of the
/// extrinsic being applied, if any.
#[derive(Clone, Copy, Debug, PartialEq, Eq)]
pub struct Entropy {
    pub random_seed: [u8; 32],
    pub random_seed_block: SeedBlock,
    pub extrinsic_index: Option<u32>,
}

/// The events of the pallet.
#[derive(Clone, Copy, Debug, PartialEq, Eq)]
pub enum Event {
    KittyCreated { account: AccountId, kitty_id: KittyId, kitty: Kitty },
    KittyBred { account: AccountId, kitty_id: KittyId, kitty: Kitty },
    KittyTransferred { sender: AccountId, recipient: AccountId, kitty_id: KittyId },
}

/// An event, with the kitty given by its genes.
pub enum EventView {
    KittyCreated { account: AccountId, kitty_id: KittyId, kitty: Seq<u8> },
    KittyBred { account: AccountId, kitty_id: KittyId, kitty: Seq<u8> },
    KittyTransferred { sender: AccountId, recipient: AccountId, kitty_id: KittyId },
}

impl View for Event {
    type V = EventView;

    open spec fn view(&self) -> EventView {
        match *self {
            Event::KittyCreated { account, kitty_id, kitty } => EventView::KittyCreated {
                account,
                kitty_id,
                kitty: kitty@,
            },
            Event::KittyBred { account, kitty_id, kitty } => EventView::KittyBred {
                account,
                kitty_id,
                kitty: kitty@,
            },
            Event::KittyTransferred { sender, recipient, kitty_id } => EventView::KittyTransferred {
                sender,
                recipient,
                kitty_id,
            },
        }
    }
}

/// The errors of the pallet.
#[derive(Clone, Copy, Debug, PartialEq, Eq)]
pub enum Error {
    KittyIdOverflow,
    SameParentKittyId,
    KittyNotExist,
    NotKittyOwner,
    TransferKittyToOwner,
}

/// The storage of the pallet, and the events it has deposited.
#[verifier::ext_equal]
pub struct KittiesState {
    pub next_kitty_id: KittyId,
    pub kitties: Map<KittyId, Seq<u8>>,
    pub owners: Map<KittyId, AccountId>,
    pub parents: Map<KittyId, (KittyId, KittyId)>,
    pub events: Seq<EventView>,
}

/// The storage at genesis: no kitty, the next id 0, no event.
pub open spec fn genesis_state() -> KittiesState {
    KittiesState {
        next_kitty_id: 0,
        kitties: Map::empty(),
        owners: Map::empty(),
        parents: Map::empty(),
        events: Seq::empty(),
    }
}

/// The genes that `random_kitty_genes` gives `account`: the Blake2-128 digest
/// of the SCALE encoding of `((seed, seed block), account, extrinsic index)`.
pub open spec fn random_genes(account: AccountId, entropy: Entropy) -> Seq<u8> {
    blake2_128_digest(
        seeded_payload_encoding(
            entropy.random_seed@,
            seed_block_encoding(entropy.random_seed_block),
            account,
            entropy.extrinsic_index,
        ),
    )
}

/// The genes of a child: each bit comes from the first parent where the
/// selector's bit is set, and from the second parent where it is clear.
pub open spec fn mixed_genes(selector: Seq<u8>, genes_1: Seq<u8>, genes_2: Seq<u8>) -> Seq<u8> {
    Seq::new(16, |i: int| (genes_1[i] & selector[i]) | (genes_2[i] & !selector[i]))
}

/// Taking a kitty id: the next id is handed out and advanced by one, unless
/// it is the last id, which is never handed out.
pub open spec fn next_kitty_id_step(s: KittiesState) -> (KittiesState, Result<
    KittyId,
    DispatchError<Error>,
>) {
    if s.next_kitty_id == u32::MAX {
        (s, Err(DispatchError::Module(Error::KittyIdOverflow)))
    } else {
        (
            KittiesState { next_kitty_id: (s.next_kitty_id + 1) as u32, ..s },
            Ok(s.next_kitty_id),
        )
    }
}

/// `create_kitty`: a signed origin gets a new kitty with random genes under
/// the next id, unless the next id is the last one.
pub open spec fn create_kitty_step(s: KittiesState, origin: Origin, entropy: Entropy) -> (
    KittiesState,
    Result<(), DispatchError<Error>>,
) {
    match signer_of(origin) {
        None => (s, Err(DispatchError::BadOrigin)),
        Some(who) => if s.next_kitty_id == u32::MAX {
            (s, Err(DispatchError::Module(Error::KittyIdOverflow)))
        } else {
            let id = s.next_kitty_id;
            let genes = random_genes(who, entropy);
            (
                KittiesState {
                    next_kitty_id: (id + 1) as u32,
                    kitties: s.kitties.insert(id, genes),
                    owners: s.owners.insert(id, who),
                    parents: s.parents,
                    events: s.events.push(
                        EventView::KittyCreated { account: who, kitty_id: id, kitty: genes },
                    ),
                },
                Ok(()),
            )
        },
    }
}

/// `bred_kitty`: a signed origin gets a child of two distinct existing kitties
/// under the next id, its genes mixed from theirs by a random selector.
pub open spec fn bred_kitty_step(
    s: KittiesState,
    origin: Origin,
    parent_id_1: KittyId,
    parent_id_2: KittyId,
    entropy: Entropy,
) -> (KittiesState, Result<(), DispatchError<Error>>) {
    match signer_of(origin) {
        None => (s, Err(DispatchError::BadOrigin)),
        Some(who) => if parent_id_1 == parent_id_2 {
            (s, Err(DispatchError::Module(Error::SameParentKittyId)))
        } else if !s.kitties.contains_key(parent_id_1) || !s.kitties.contains_key(parent_id_2) {
            (s, Err(DispatchError::Module(Error::KittyNotExist)))
        } else if s.next_kitty_id == u32::MAX {
            (s, Err(DispatchError::Module(Error::KittyIdOverflow)))
        } else {
            let id = s.next_kitty_id;
            let genes = mixed_genes(
                random_genes(who, entropy),
                s.kitties[parent_id_1],
                s.kitties[parent_id_2],
            );
            (
                KittiesState {
                    next_kitty_id: (id + 1) as u32,
                    kitties: s.kitties.insert(id, genes),
                    owners: s.owners.insert(id, who),
                    parents: s.parents.insert(id, (parent_id_1, parent_id_2)),
                    events: s.events.push(
                        EventView::KittyBred { account: who, kitty_id: id, kitty: genes },
                    ),
                },
                Ok(()),
            )
        },
    }
}

/// `transfer_kitty`: the owner of a kitty gives it to another account.
pub open spec fn transfer_kitty_step(
    s: KittiesState,
    origin: Origin,
    recipient: AccountId,
    kitty_id: KittyId,
) -> (KittiesState, Result<(), DispatchError<Error>>) {
    match signer_of(origin) {
        None => (s, Err(DispatchError::BadOrigin)),
        Some(who) => if !s.owners.contains_key(kitty_id) {
            (s, Err(DispatchError::Module(Error::KittyNotExist)))
        } else if who != s.owners[kitty_id] {
            (s, Err(DispatchError::Module(Error::NotKittyOwner)))
        } else if who == recipient {
            (s, Err(DispatchError::Module(Error::TransferKittyToOwner)))
        } else {
            (
                KittiesState {
                    owners: s.owners.insert(kitty_id, recipient),
                    events: s.events.push(
                        EventView::KittyTransferred { sender: who, recipient, kitty_id },
                    ),
                    ..s
                },
                Ok(()),
            )
        },
    }
}

/// The kitties pallet with its storage.
pub struct Pallet {
    next_kitty_id: KittyId,
    kitties: HashMap<KittyId, Kitty>,
    kitty_owner: HashMap<KittyId, AccountId>,
    kitty_parents: HashMap<KittyId, (KittyId, KittyId)>,
    events: Vec<Event>,
}

impl View for Pallet {
    type V = KittiesState;

    closed spec fn view(&self) -> KittiesState {
        KittiesState {
            next_kitty_id: self.next_kitty_id,
            kitties: self.kitties@.map_values(|k: Kitty| k@),
            owners: self.kitty_owner@,
            parents: self.kitty_parents@,
            events: self.events@.map_values(|e: Event| e@),
        }
    }
}

impl Pallet {
    /// The pallet at genesis.
    pub fn new() -> (r: Pallet)
        ensures
            r@ == genesis_state(),
    {
        let r = Pallet {
            next_kitty_id: 0,
            kitties: HashMap::new(),
            kitty_owner: HashMap::new(),
            kitty_parents: HashMap::new(),
            events: Vec::new(),
        };
        assert(r@ =~= genesis_state());
        r
    }

    /// The id the next kitty gets.
    pub fn next_kitty_id(&self) -> (r: KittyId)
        ensures
            r == self@.next_kitty_id,
    {
        self.next_kitty_id
    }

    /// Overwrites the id the next kitty gets (a raw write of `NextKittyId`).
    pub fn set_next_kitty_id(&mut self, kitty_id: KittyId)
        ensures
            final(self)@ == (KittiesState { next_kitty_id: kitty_id, ..old(self)@ }),
    {
        self.next_kitty_id = kitty_id;
        assert(self@ =~= (KittiesState { next_kitty_id: kitty_id, ..old(self)@ }));
    }

    /// The kitty stored under `kitty_id`, if any.
    pub fn kitties(&self, kitty_id: KittyId) -> (r: Option<Kitty>)
        ensures
            match r {
                Some(k) => self@.kitties.contains_key(kitty_id) && k@ == self@.kitties[kitty_id],
                None => !self@.kitties.contains_key(kitty_id),
            },
    {
        match self.kitties.get(&kitty_id) {
            Some(k) => Some(*k),
            None => None,
        }
    }

    /// The owner of the kitty `kitty_id`, if any.
    pub fn kitty_owner(&self, kitty_id: KittyId) -> (r: Option<AccountId>)
        ensures
            match r {
                Some(a) => self@.owners.contains_key(kitty_id) && a == self@.owners[kitty_id],
                None => !self@.owners.contains_key(kitty_id),
            },
    {
        match self.kitty_owner.get(&kitty_id) {
            Some(a) => Some(*a),
            None => None,
        }
    }

    /// The parents of the kitty `kitty_id`, if it was bred.
    pub fn kitty_parents(&self, kitty_id: KittyId) -> (r: Option<(KittyId, KittyId)>)
        ensures
            match r {
                Some(p) => self@.parents.contains_key(kitty_id) && p == self@.parents[kitty_id],
                None => !self@.parents.contains_key(kitty_id),
            },
    {
        match self.kitty_parents.get(&kitty_id) {
            Some(p) => Some(*p),
            None => None,
        }
    }

    /// The last event the pallet deposited, if any.
    pub fn last_event(&self) -> (r: Option<Event>)
        ensures
            match r {
                Some(e) => self@.events.len() > 0 && e@ == self@.events.last(),
                None => self@.events.len() == 0,
            },
    {
        let n = self.events.len();
        if n == 0 {
            None
        } else {
            let e = self.events[n - 1];
            Some(e)
        }
    }

    fn deposit_event(&mut self, event: Event)
        ensures
            final(self)@ == (KittiesState { events: old(self)@.events.push(event@), ..old(self)@ }),
    {
        self.events.push(event);
        assert(self@ =~= (KittiesState { events: old(self)@.events.push(event@), ..old(self)@ }));
    }

    /// Takes the next kitty id and advances it by one; fails, changing
    /// nothing, when it is the last id.
    fn generate_next_kitty_id(&mut self) -> (r: Result<KittyId, DispatchError<Error>>)
        ensures
            match r {
                Ok(id) => {
                    &&& id == old(self)@.next_kitty_id
                    &&& id < u32::MAX
                    &&& final(self)@ == (KittiesState {
                        next_kitty_id: (id + 1) as u32,
                        ..old(self)@
                    })
                },
                Err(e) => {
                    &&& e == DispatchError::Module(Error::KittyIdOverflow)
                    &&& old(self)@.next_kitty_id == u32::MAX
                    &&& final(self)@ == old(self)@
                },
            },
            final(self)@ == next_kitty_id_step(old(self)@).0,
            r == next_kitty_id_step(old(self)@).1,
    {
        let kitty_id = self.next_kitty_id;
        match kitty_id.checked_add(1) {
            Some(next) => {
                self.next_kitty_id = next;
                assert(self@ =~= (KittiesState { next_kitty_id: next, ..old(self)@ }));
                Ok(kitty_id)
            },
            None => Err(DispatchError::Module(Error::KittyIdOverflow)),
        }
    }

    /// Random genes for `account`: the Blake2-128 digest of the SCALE encoding
    /// of the randomness seed, the account and the extrinsic index.
    pub fn random_kitty_genes(account: AccountId, entropy: &Entropy) -> (r: KittyGenes)
        ensures
            r@ == random_genes(account, *entropy),
    {
        let payload = match entropy.random_seed_block {
            SeedBlock::U32(block) => encode_seeded_payload_u32(
                &entropy.random_seed,
                block,
                account,
                entropy.extrinsic_index,
            ),
            SeedBlock::U64(block) => encode_seeded_payload_u64(
                &entropy.random_seed,
                block,
                account,
                entropy.extrinsic_index,
            ),
        };
        blake2_128(payload.as_slice())
    }

    /// Mixes the genes of two parents: each bit from `parent_1` where the
    /// selector's bit is set, from `parent_2` where it is clear.
    pub fn mix_genes(selector: &KittyGenes, parent_1: &Kitty, parent_2: &Kitty) -> (r: KittyGenes)
        ensures
            r@ == mixed_genes(selector@, parent_1@, parent_2@),
    {
        let mut genes: KittyGenes = [0u8; 16];
        let mut i: usize = 0;
        while i < 16
            invariant
                0 <= i <= 16,
                forall|j: int|
                    0 <= j < i ==> genes@[j] == (parent_1.0@[j] & selector@[j]) | (parent_2.0@[j]
                        & !selector@[j]),
            decreases 16 - i,
        {
            genes[i] = (parent_1.0[i] & selector[i]) | (parent_2.0[i] & !selector[i]);
            i += 1;
        }
        assert(genes@ =~= mixed_genes(selector@, parent_1@, parent_2@));
        genes
    }

    /// The genes of a child of `parent_1` and `parent_2` bred by `account`:
    /// the parents' genes mixed by the random genes of `account`.
    pub fn child_kitty_genes(
        account: AccountId,
        parent_1: &Kitty,
        parent_2: &Kitty,
        entropy: &Entropy,
    ) -> (r: KittyGenes)
        ensures
            r@ == mixed_genes(random_genes(account, *entropy), parent_1@, parent_2@),
    {
        let selector = Self::random_kitty_genes(account, entropy);
        Self::mix_genes(&selector, parent_1, parent_2)
    }

    /// Creates a kitty with random genes for the signer, under the next id.
    pub fn create_kitty(&mut self, origin: Origin, entropy: &Entropy) -> (r: Result<
        (),
        DispatchError<Error>,
    >)
        ensures
            final(self)@ == create_kitty_step(old(self)@, origin, *entropy).0,
            r == create_kitty_step(old(self)@, origin, *entropy).1,
    {
        let signer = match ensure_signed(origin) {
            Ok(who) => who,
            Err(_) => return Err(DispatchError::BadOrigin),
        };
        let kitty_id = match self.generate_next_kitty_id() {
            Ok(id) => id,
            Err(e) => return Err(e),
        };
        let kitty = Kitty(Self::random_kitty_genes(signer, entropy));
        self.kitties.insert(kitty_id, kitty);
        self.kitty_owner.insert(kitty_id, signer);
        let ghost mid = self@;
        self.deposit_event(Event::KittyCreated { account: signer, kitty_id, kitty });
        assert(mid.kitties =~= old(self)@.kitties.insert(kitty_id, kitty@));
        assert(self@ =~= create_kitty_step(old(self)@, origin, *entropy).0);
        Ok(())
    }

    /// Breeds a child of two distinct existing kitties for the signer, under
    /// the next id.
    pub fn bred_kitty(
        &mut self,
        origin: Origin,
        parent_id_1: KittyId,
        parent_id_2: KittyId,
        entropy: &Entropy,
    ) -> (r: Result<(), DispatchError<Error>>)
        ensures
            final(self)@ == bred_kitty_step(old(self)@, origin, parent_id_1, parent_id_2, *entropy).0,
            r == bred_kitty_step(old(self)@, origin, parent_id_1, parent_id_2, *entropy).1,
    {
        let signer = match ensure_signed(origin) {
            Ok(who) => who,
            Err(_) => return Err(DispatchError::BadOrigin),
        };
        if parent_id_1 == parent_id_2 {
            return Err(DispatchError::Module(Error::SameParentKittyId));
        }
        let parent_1 = match self.kitties(parent_id_1) {
            Some(k) => k,
            None => return Err(DispatchError::Module(Error::KittyNotExist)),
        };
        let parent_2 = match self.kitties(parent_id_2) {
            Some(k) => k,
            None => return Err(DispatchError::Module(Error::KittyNotExist)),
        };
        let kitty_id = match self.generate_next_kitty_id() {
            Ok(id) => id,
            Err(e) => return Err(e),
        };
        let kitty = Kitty(Self::child_kitty_genes(signer, &parent_1, &parent_2, entropy));
        self.kitties.insert(kitty_id, kitty);
        self.kitty_owner.insert(kitty_id, signer);
        self.kitty_parents.insert(kitty_id, (parent_id_1, parent_id_2));
        let ghost mid = self@;
        self.deposit_event(Event::KittyBred { account: signer, kitty_id, kitty });
        assert(mid.kitties =~= old(self)@.kitties.insert(kitty_id, kitty@));
        assert(self@ =~= bred_kitty_step(
            old(self)@,
            origin,
            parent_id_1,
            parent_id_2,
            *entropy,
        ).0);
        Ok(())
    }

    /// Transfers a kitty from its owner, the signer, to another account.
    pub fn transfer_kitty(&mut self, origin: Origin, recipient: AccountId, kitty_id: KittyId) -> (r:
        Result<(), DispatchError<Error>>)
        ensures
            final(self)@ == transfer_kitty_step(old(self)@, origin, recipient, kitty_id).0,
            r == transfer_kitty_step(old(self)@, origin, recipient, kitty_id).1,
    {
        let signer = match ensure_signed(origin) {
            Ok(who) => who,
            Err(_) => return Err(DispatchError::BadOrigin),
        };
        let owner = match self.kitty_owner(kitty_id) {
            Some(a) => a,
            None => return Err(DispatchError::Module(Error::KittyNotExist)),
        };
        if signer != owner {
            return Err(DispatchError::Module(Error::NotKittyOwner));
        }
        if signer == recipient {
            return Err(DispatchError::Module(Error::TransferKittyToOwner));
        }
        self.kitty_owner.insert(kitty_id, recipient);
        self.deposit_event(Event::KittyTransferred { sender: signer, recipient, kitty_id });
        assert(self@ =~= transfer_kitty_step(old(self)@, origin, recipient, kitty_id).0);
        Ok(())
    }
}

} // verus!
