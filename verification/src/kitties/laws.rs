//! What every operation of the kitties pallet keeps, and what calls undo.

use super::{
    bred_kitty_step, create_kitty_step, genesis_state, mixed_genes, next_kitty_id_step,
    random_genes, transfer_kitty_step, Entropy, Error, EventView, KittiesState, KittyId,
    SeedBlock,
};
use crate::hashing::blake2_128_digest;
use crate::scale::le_bytes;
use crate::dispatch::{signer_of, AccountId, DispatchError, Origin};
use vstd::prelude::*;

verus! {

/// The storage invariant: every kitty has an owner and only kitties do, every
/// kitty's id is below the next id, and a bred kitty's parents are two
/// distinct kitties with smaller ids.
pub open spec fn kitties_wf(s: KittiesState) -> bool {
    &&& forall|id: KittyId| #[trigger] s.owners.contains_key(id) <==> s.kitties.contains_key(id)
    &&& forall|id: KittyId| #[trigger] s.kitties.contains_key(id) ==> id < s.next_kitty_id
    &&& forall|id: KittyId| #[trigger]
        s.parents.contains_key(id) ==> {
            &&& s.kitties.contains_key(id)
            &&& s.parents[id].0 != s.parents[id].1
            &&& s.parents[id].0 < id
            &&& s.parents[id].1 < id
            &&& s.kitties.contains_key(s.parents[id].0)
            &&& s.kitties.contains_key(s.parents[id].1)
        }
}

/// At genesis there is no kitty, owner, parent or event, and the next id is 0.
pub proof fn lemma_genesis_is_empty(id: KittyId)
    ensures
        genesis_state().next_kitty_id == 0,
        !genesis_state().kitties.contains_key(id),
        !genesis_state().owners.contains_key(id),
        !genesis_state().parents.contains_key(id),
        genesis_state().events.len() == 0,
{
}

/// The storage at genesis satisfies the invariant.
pub proof fn lemma_genesis_wf()
    ensures
        kitties_wf(genesis_state()),
{
}

/// `create_kitty` keeps the invariant.
pub proof fn lemma_create_kitty_keeps_wf(s: KittiesState, origin: Origin, entropy: Entropy)
    requires
        kitties_wf(s),
    ensures
        kitties_wf(create_kitty_step(s, origin, entropy).0),
{
}

/// `bred_kitty` keeps the invariant.
pub proof fn lemma_bred_kitty_keeps_wf(
    s: KittiesState,
    origin: Origin,
    parent_id_1: KittyId,
    parent_id_2: KittyId,
    entropy: Entropy,
)
    requires
        kitties_wf(s),
    ensures
        kitties_wf(bred_kitty_step(s, origin, parent_id_1, parent_id_2, entropy).0),
{
}

/// `transfer_kitty` keeps the invariant.
pub proof fn lemma_transfer_kitty_keeps_wf(
    s: KittiesState,
    origin: Origin,
    recipient: AccountId,
    kitty_id: KittyId,
)
    requires
        kitties_wf(s),
    ensures
        kitties_wf(transfer_kitty_step(s, origin, recipient, kitty_id).0),
{
}

/// A refused call changes no storage and deposits no event.
pub proof fn lemma_refused_calls_change_nothing(
    s: KittiesState,
    origin: Origin,
    parent_id_1: KittyId,
    parent_id_2: KittyId,
    recipient: AccountId,
    kitty_id: KittyId,
    entropy: Entropy,
)
    ensures
        create_kitty_step(s, origin, entropy).1 is Err ==> create_kitty_step(s, origin, entropy).0
            == s,
        bred_kitty_step(s, origin, parent_id_1, parent_id_2, entropy).1 is Err ==> bred_kitty_step(
            s,
            origin,
            parent_id_1,
            parent_id_2,
            entropy,
        ).0 == s,
        transfer_kitty_step(s, origin, recipient, kitty_id).1 is Err ==> transfer_kitty_step(
            s,
            origin,
            recipient,
            kitty_id,
        ).0 == s,
{
}

/// A kitty that is created or bred gets the next id, which no kitty had, and
/// the next id moves on by one; every kitty that existed stays as it was,
/// with the same owner.
pub proof fn lemma_new_kitty_is_fresh(
    s: KittiesState,
    origin: Origin,
    parent_id_1: KittyId,
    parent_id_2: KittyId,
    entropy: Entropy,
    bred: bool,
)
    requires
        kitties_wf(s),
        (if bred {
            bred_kitty_step(s, origin, parent_id_1, parent_id_2, entropy).1
        } else {
            create_kitty_step(s, origin, entropy).1
        }) is Ok,
    ensures
        ({
            let t = if bred {
                bred_kitty_step(s, origin, parent_id_1, parent_id_2, entropy).0
            } else {
                create_kitty_step(s, origin, entropy).0
            };
            &&& !s.kitties.contains_key(s.next_kitty_id)
            &&& t.kitties.contains_key(s.next_kitty_id)
            &&& t.owners[s.next_kitty_id] == signer_of(origin).unwrap()
            &&& t.next_kitty_id == s.next_kitty_id + 1
            &&& forall|id: KittyId| #[trigger]
                s.kitties.contains_key(id) ==> {
                    &&& t.kitties.contains_key(id)
                    &&& t.kitties[id] == s.kitties[id]
                    &&& t.owners[id] == s.owners[id]
                }
        }),
{
}

/// Transferring a kitty and transferring it back restores every owner and
/// every kitty.
pub proof fn lemma_transfer_back_restores_owners(
    s: KittiesState,
    a: AccountId,
    b: AccountId,
    kitty_id: KittyId,
)
    requires
        transfer_kitty_step(s, Origin::Signed(a), b, kitty_id).1 is Ok,
    ensures
        ({
            let t = transfer_kitty_step(s, Origin::Signed(a), b, kitty_id).0;
            let u = transfer_kitty_step(t, Origin::Signed(b), a, kitty_id);
            &&& u.1 is Ok
            &&& u.0.owners == s.owners
            &&& u.0.kitties == s.kitties
            &&& u.0.parents == s.parents
            &&& u.0.next_kitty_id == s.next_kitty_id
        }),
{
    let t = transfer_kitty_step(s, Origin::Signed(a), b, kitty_id).0;
    let u = transfer_kitty_step(t, Origin::Signed(b), a, kitty_id);
    assert(u.0.owners =~= s.owners);
}

/// Two successive takes of a kitty id: after the first gave `x`, the second
/// gives `x + 1`, or the overflow error when `x + 1` is the last id. Ids that
/// are handed out strictly increase, and the last id is never handed out.
pub proof fn lemma_kitty_ids_are_consecutive(s: KittiesState)
    requires
        next_kitty_id_step(s).1 is Ok,
    ensures
        ({
            let x = next_kitty_id_step(s).1->Ok_0;
            let (t, r2) = next_kitty_id_step(next_kitty_id_step(s).0);
            &&& x < u32::MAX
            &&& x + 1 < u32::MAX ==> r2 == Ok::<KittyId, DispatchError<Error>>((x + 1) as u32)
            &&& x + 1 == u32::MAX ==> r2 == Err::<KittyId, DispatchError<Error>>(
                DispatchError::Module(Error::KittyIdOverflow),
            )
            &&& r2 matches Ok(y) ==> x < y && y < u32::MAX
        }),
{
}

/// Random genes are the Blake2-128 digest of the SCALE encoding of
/// `((seed, seed block), account, extrinsic index)`: the 32 seed bytes, the
/// seed block's little-endian bytes in its own width (4 or 8), the account's 8
/// little-endian bytes, then the extrinsic index as given (`0`, or `1` and its
/// 4 little-endian bytes).
pub proof fn lemma_random_genes_hash_the_payload(account: AccountId, entropy: Entropy)
    ensures
        random_genes(account, entropy) == blake2_128_digest(
            entropy.random_seed@ + match entropy.random_seed_block {
                SeedBlock::U32(b) => le_bytes(b as nat, 4),
                SeedBlock::U64(b) => le_bytes(b as nat, 8),
            } + le_bytes(account as nat, 8) + match entropy.extrinsic_index {
                Some(x) => seq![1u8] + le_bytes(x as nat, 4),
                None => seq![0u8],
            },
        ),
{
}

/// Two extrinsics with different indices hash different payloads for the same
/// seed and account: the hashed bytes differ exactly where the index is
/// encoded.
pub proof fn lemma_extrinsic_index_is_hashed(
    account: AccountId,
    entropy: Entropy,
    index_1: u32,
    index_2: u32,
)
    requires
        index_1 != index_2,
    ensures
        ({
            let head = entropy.random_seed@ + match entropy.random_seed_block {
                SeedBlock::U32(b) => le_bytes(b as nat, 4),
                SeedBlock::U64(b) => le_bytes(b as nat, 8),
            } + le_bytes(account as nat, 8);
            head + (seq![1u8] + le_bytes(index_1 as nat, 4)) != head + (seq![1u8] + le_bytes(
                index_2 as nat,
                4,
            ))
        }),
{
    let head = entropy.random_seed@ + match entropy.random_seed_block {
        SeedBlock::U32(b) => le_bytes(b as nat, 4),
        SeedBlock::U64(b) => le_bytes(b as nat, 8),
    } + le_bytes(account as nat, 8);
    let p1 = head + (seq![1u8] + le_bytes(index_1 as nat, 4));
    let p2 = head + (seq![1u8] + le_bytes(index_2 as nat, 4));
    assert(vstd::arithmetic::power::pow(256, 4) == 0x1_0000_0000) by {
        reveal_with_fuel(vstd::arithmetic::power::pow, 5);
    }
    crate::scale::lemma_le_bytes_injective(index_1 as nat, index_2 as nat, 4);
    crate::scale::lemma_le_bytes_digits(index_1 as nat, 4);
    crate::scale::lemma_le_bytes_digits(index_2 as nat, 4);
    assert(p1.subrange(head.len() + 1int, head.len() + 5int) =~= le_bytes(index_1 as nat, 4));
    assert(p2.subrange(head.len() + 1int, head.len() + 5int) =~= le_bytes(index_2 as nat, 4));
}

/// `create_kitty` succeeds exactly for a signed origin while the next id is
/// below the last; the new kitty gets the next id, the creator's random genes
/// and the creator as owner, the next id moves on by one, no other kitty,
/// owner or parent changes, and one `KittyCreated` event is added.
pub proof fn lemma_create_kitty_outcome(s: KittiesState, origin: Origin, entropy: Entropy)
    ensures
        (create_kitty_step(s, origin, entropy).1 is Ok) <==> (signer_of(origin) is Some
            && s.next_kitty_id < u32::MAX),
        create_kitty_step(s, origin, entropy).1 is Ok ==> ({
            let t = create_kitty_step(s, origin, entropy).0;
            let id = s.next_kitty_id;
            let who = signer_of(origin)->Some_0;
            &&& t.next_kitty_id == id + 1
            &&& t.kitties.contains_key(id) && t.kitties[id] == random_genes(who, entropy)
            &&& t.owners.contains_key(id) && t.owners[id] == who
            &&& t.parents == s.parents
            &&& forall|k: KittyId|
                k != id ==> {
                    &&& (#[trigger] t.kitties.contains_key(k) <==> s.kitties.contains_key(k))
                    &&& (t.owners.contains_key(k) <==> s.owners.contains_key(k))
                    &&& (s.kitties.contains_key(k) ==> t.kitties[k] == s.kitties[k])
                    &&& (s.owners.contains_key(k) ==> t.owners[k] == s.owners[k])
                }
            &&& t.events == s.events.push(
                EventView::KittyCreated { account: who, kitty_id: id, kitty: t.kitties[id] },
            )
        }),
{
}

/// `bred_kitty` succeeds exactly for a signed origin, two different parent
/// ids (in either order) that both name kitties, and a next id below the
/// last. The child gets the next id; each bit of its genes is the first
/// parent's where the breeder's random genes have it set and the second
/// parent's where they have it clear; its parents are recorded in the order
/// given and its owner is the breeder; the next id moves on by one, nothing
/// else changes, and one `KittyBred` event is added.
pub proof fn lemma_bred_kitty_outcome(
    s: KittiesState,
    origin: Origin,
    parent_id_1: KittyId,
    parent_id_2: KittyId,
    entropy: Entropy,
)
    ensures
        (bred_kitty_step(s, origin, parent_id_1, parent_id_2, entropy).1 is Ok) <==> (signer_of(
            origin,
        ) is Some && parent_id_1 != parent_id_2 && s.kitties.contains_key(parent_id_1)
            && s.kitties.contains_key(parent_id_2) && s.next_kitty_id < u32::MAX),
        bred_kitty_step(s, origin, parent_id_1, parent_id_2, entropy).1 is Ok ==> ({
            let t = bred_kitty_step(s, origin, parent_id_1, parent_id_2, entropy).0;
            let id = s.next_kitty_id;
            let who = signer_of(origin)->Some_0;
            let selector = random_genes(who, entropy);
            let g1 = s.kitties[parent_id_1];
            let g2 = s.kitties[parent_id_2];
            &&& t.next_kitty_id == id + 1
            &&& t.kitties.contains_key(id)
            &&& t.kitties[id].len() == 16
            &&& forall|i: int|
                0 <= i < 16 ==> (#[trigger] t.kitties[id][i] & selector[i]) == (g1[i]
                    & selector[i]) && (t.kitties[id][i] & !selector[i]) == (g2[i] & !selector[i])
            &&& t.parents.contains_key(id) && t.parents[id] == (parent_id_1, parent_id_2)
            &&& t.owners.contains_key(id) && t.owners[id] == who
            &&& forall|k: KittyId|
                k != id ==> {
                    &&& (#[trigger] t.kitties.contains_key(k) <==> s.kitties.contains_key(k))
                    &&& (t.owners.contains_key(k) <==> s.owners.contains_key(k))
                    &&& (t.parents.contains_key(k) <==> s.parents.contains_key(k))
                    &&& (s.kitties.contains_key(k) ==> t.kitties[k] == s.kitties[k])
                    &&& (s.owners.contains_key(k) ==> t.owners[k] == s.owners[k])
                    &&& (s.parents.contains_key(k) ==> t.parents[k] == s.parents[k])
                }
            &&& t.events == s.events.push(
                EventView::KittyBred { account: who, kitty_id: id, kitty: t.kitties[id] },
            )
        }),
{
    if bred_kitty_step(s, origin, parent_id_1, parent_id_2, entropy).1 is Ok {
        let who = signer_of(origin)->Some_0;
        let selector = random_genes(who, entropy);
        let g1 = s.kitties[parent_id_1];
        let g2 = s.kitties[parent_id_2];
        let child = mixed_genes(selector, g1, g2);
        assert forall|i: int| 0 <= i < 16 implies (#[trigger] child[i] & selector[i]) == (g1[i]
            & selector[i]) && (child[i] & !selector[i]) == (g2[i] & !selector[i]) by {
            let x = g1[i];
            let y = g2[i];
            let m = selector[i];
            assert(((x & m) | (y & !m)) & m == x & m) by (bit_vector);
            assert(((x & m) | (y & !m)) & !m == y & !m) by (bit_vector);
        }
    }
}

/// `transfer_kitty` succeeds exactly when the signer owns the kitty and the
/// recipient is someone else; then only that kitty's owner changes, to the
/// recipient: every other owner, every kitty, every parent and the next id
/// stay, and one `KittyTransferred` event is added.
pub proof fn lemma_transfer_kitty_outcome(
    s: KittiesState,
    origin: Origin,
    recipient: AccountId,
    kitty_id: KittyId,
)
    ensures
        (transfer_kitty_step(s, origin, recipient, kitty_id).1 is Ok) <==> (signer_of(origin) is Some
            && s.owners.contains_key(kitty_id) && s.owners[kitty_id] == signer_of(origin)->Some_0
            && recipient != signer_of(origin)->Some_0),
        transfer_kitty_step(s, origin, recipient, kitty_id).1 is Ok ==> ({
            let t = transfer_kitty_step(s, origin, recipient, kitty_id).0;
            let who = signer_of(origin)->Some_0;
            &&& t.owners.contains_key(kitty_id) && t.owners[kitty_id] == recipient
            &&& forall|k: KittyId|
                k != kitty_id ==> (#[trigger] t.owners.contains_key(k) <==> s.owners.contains_key(
                    k,
                )) && (s.owners.contains_key(k) ==> t.owners[k] == s.owners[k])
            &&& t.kitties == s.kitties
            &&& t.parents == s.parents
            &&& t.next_kitty_id == s.next_kitty_id
            &&& t.events == s.events.push(
                EventView::KittyTransferred { sender: who, recipient, kitty_id },
            )
        }),
{
}

/// Each bit of a child's genes is its first parent's where the selector's bit
/// is set, and its second parent's where it is clear.
pub proof fn lemma_mixed_genes_bits(selector: Seq<u8>, genes_1: Seq<u8>, genes_2: Seq<u8>)
    requires
        selector.len() == 16,
        genes_1.len() == 16,
        genes_2.len() == 16,
    ensures
        mixed_genes(selector, genes_1, genes_2).len() == 16,
        forall|i: int|
            0 <= i < 16 ==> (#[trigger] mixed_genes(selector, genes_1, genes_2)[i] & selector[i])
                == (genes_1[i] & selector[i]),
        forall|i: int|
            0 <= i < 16 ==> (#[trigger] mixed_genes(selector, genes_1, genes_2)[i] & !selector[i])
                == (genes_2[i] & !selector[i]),
{
    assert forall|i: int| 0 <= i < 16 implies {
        &&& (#[trigger] mixed_genes(selector, genes_1, genes_2)[i] & selector[i]) == (genes_1[i]
            & selector[i])
        &&& (mixed_genes(selector, genes_1, genes_2)[i] & !selector[i]) == (genes_2[i]
            & !selector[i])
    } by {
        let x = genes_1[i];
        let y = genes_2[i];
        let m = selector[i];
        assert(((x & m) | (y & !m)) & m == x & m) by (bit_vector);
        assert(((x & m) | (y & !m)) & !m == y & !m) by (bit_vector);
    }
}

/// A child of two parents with the same genes has those genes, whatever the
/// selector.
pub proof fn lemma_mixed_genes_same_parents(selector: Seq<u8>, genes: Seq<u8>)
    requires
        genes.len() == 16,
    ensures
        mixed_genes(selector, genes, genes) == genes,
{
    assert forall|i: int| 0 <= i < 16 implies #[trigger] mixed_genes(selector, genes, genes)[i]
        == genes[i] by {
        let x = genes[i];
        let m = selector[i];
        assert((x & m) | (x & !m) == x) by (bit_vector);
    }
    assert(mixed_genes(selector, genes, genes) =~= genes);
}

} // verus!
