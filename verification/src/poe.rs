//! The proof-of-existence pallet: an account claims a byte string, and the
//! claim records its owner and the block it was made or last transferred at.
//! The owner may revoke the claim or transfer it to another account.
//!
//! `Pallet` owns the `Proofs` storage map, kept as a list of records with
//! pairwise distinct claims; its view is the map from claim to
//! `(owner, block number)`, and each dispatchable's contract is one of the
//! spec transitions `create_claim_step`, `revoke_claim_step` and
//! `transfer_claim_step`.

use crate::dispatch::{ensure_signed, signer_of, AccountId, BlockNumber, DispatchError, Origin};
use vstd::prelude::*;

verus! {

/// A byte string no longer than the bound it was made with.
#[derive(Debug)]
pub struct BoundedVec {
    items: Vec<u8>,
    bound: u32,
}

impl View for BoundedVec {
    type V = Seq<u8>;

    closed spec fn view(&self) -> Seq<u8> {
        self.items@
    }
}

impl BoundedVec {
    /// The bound the byte string was made with.
    pub closed spec fn spec_bound(&self) -> u32 {
        self.bound
    }

    #[verifier::type_invariant]
    spec fn within_bound(self) -> bool {
        self.items.len() <= self.bound
    }

    /// Bounds `items` by `bound`; gives them back when they are longer.
    pub fn try_from(items: Vec<u8>, bound: u32) -> (r: Result<BoundedVec, Vec<u8>>)
        ensures
            match r {
                Ok(b) => items@.len() <= bound && b@ == items@ && b.spec_bound() == bound,
                Err(v) => items@.len() > bound && v@ == items@,
            },
    {
        if items.len() <= bound as usize {
            Ok(BoundedVec { items, bound })
        } else {
            Err(items)
        }
    }

    /// The bound the byte string was made with.
    pub fn bound(&self) -> (r: u32)
        ensures
            r == self.spec_bound(),
            self@.len() <= r,
    {
        proof {
            use_type_invariant(self);
        }
        self.bound
    }

    /// The bytes.
    pub fn as_slice(&self) -> (r: &[u8])
        ensures
            r@ == self@,
    {
        self.items.as_slice()
    }
}

/// The errors of the pallet.
#[derive(Clone, Copy, Debug, PartialEq, Eq)]
pub enum Error {
    ClaimAlreadyExist,
    ClaimNotExist,
    NotClaimOwner,
    TransferToOwner,
}

/// The `Proofs` storage: each claim with its owner and block number.
pub type ProofsMap = Map<Seq<u8>, (AccountId, BlockNumber)>;

/// Every claim in `s` is at most `max` bytes long.
pub open spec fn claims_fit(s: ProofsMap, max: u32) -> bool {
    forall|k: Seq<u8>| #[trigger] s.contains_key(k) ==> k.len() <= max
}

/// `create_claim`: a signed origin claims a byte string no one has claimed,
/// at the current block.
pub open spec fn create_claim_step(
    s: ProofsMap,
    origin: Origin,
    claim: Seq<u8>,
    block_number: BlockNumber,
) -> (ProofsMap, Result<(), DispatchError<Error>>) {
    match signer_of(origin) {
        None => (s, Err(DispatchError::BadOrigin)),
        Some(who) => if s.contains_key(claim) {
            (s, Err(DispatchError::Module(Error::ClaimAlreadyExist)))
        } else {
            (s.insert(claim, (who, block_number)), Ok(()))
        },
    }
}

/// `revoke_claim`: the owner of a claim removes it.
pub open spec fn revoke_claim_step(s: ProofsMap, origin: Origin, claim: Seq<u8>) -> (
    ProofsMap,
    Result<(), DispatchError<Error>>,
) {
    match signer_of(origin) {
        None => (s, Err(DispatchError::BadOrigin)),
        Some(who) => if !s.contains_key(claim) {
            (s, Err(DispatchError::Module(Error::ClaimNotExist)))
        } else if s[claim].0 != who {
            (s, Err(DispatchError::Module(Error::NotClaimOwner)))
        } else {
            (s.remove(claim), Ok(()))
        },
    }
}

/// `transfer_claim`: the owner of a claim gives it to another account, at the
/// current block.
pub open spec fn transfer_claim_step(
    s: ProofsMap,
    origin: Origin,
    dest: AccountId,
    claim: Seq<u8>,
    block_number: BlockNumber,
) -> (ProofsMap, Result<(), DispatchError<Error>>) {
    match signer_of(origin) {
        None => (s, Err(DispatchError::BadOrigin)),
        Some(who) => if !s.contains_key(claim) {
            (s, Err(DispatchError::Module(Error::ClaimNotExist)))
        } else if s[claim].0 != who {
            (s, Err(DispatchError::Module(Error::NotClaimOwner)))
        } else if dest == who {
            (s, Err(DispatchError::Module(Error::TransferToOwner)))
        } else {
            (s.insert(claim, (dest, block_number)), Ok(()))
        },
    }
}

/// A stored claim.
struct ProofRecord {
    claim: BoundedVec,
    owner: AccountId,
    block_number: BlockNumber,
}

/// No two records hold the same claim.
spec fn distinct_claims(s: Seq<ProofRecord>) -> bool {
    forall|i: int, j: int|
        0 <= i < s.len() && 0 <= j < s.len() && i != j ==> #[trigger] s[i].claim@ != #[trigger] s[j].claim@
}

/// The map from claim to owner and block number that a list of records holds.
spec fn records_map(s: Seq<ProofRecord>) -> ProofsMap {
    Map::new(
        |k: Seq<u8>| exists|i: int| 0 <= i < s.len() && #[trigger] s[i].claim@ == k,
        |k: Seq<u8>|
            {
                let i = choose|i: int| 0 <= i < s.len() && #[trigger] s[i].claim@ == k;
                (s[i].owner, s[i].block_number)
            },
    )
}

proof fn lemma_records_map_at(s: Seq<ProofRecord>, i: int)
    requires
        distinct_claims(s),
        0 <= i < s.len(),
    ensures
        records_map(s).contains_key(s[i].claim@),
        records_map(s)[s[i].claim@] == (s[i].owner, s[i].block_number),
{
    let k = s[i].claim@;
    assert(records_map(s).dom().contains(k));
    let j = choose|j: int| 0 <= j < s.len() && #[trigger] s[j].claim@ == k;
    assert(s[j].claim@ == k);
    assert(j == i);
}

proof fn lemma_records_map_absent(s: Seq<ProofRecord>, k: Seq<u8>)
    requires
        forall|i: int| 0 <= i < s.len() ==> #[trigger] s[i].claim@ != k,
    ensures
        !records_map(s).contains_key(k),
{
}

proof fn lemma_records_push(s: Seq<ProofRecord>, r: ProofRecord)
    requires
        distinct_claims(s),
        !records_map(s).contains_key(r.claim@),
    ensures
        distinct_claims(s.push(r)),
        records_map(s.push(r)) == records_map(s).insert(r.claim@, (r.owner, r.block_number)),
{
    let t = s.push(r);
    assert forall|i: int| 0 <= i < s.len() implies #[trigger] s[i].claim@ != r.claim@ by {
        if s[i].claim@ == r.claim@ {
            assert(records_map(s).dom().contains(r.claim@));
        }
    }
    assert(distinct_claims(t)) by {
        assert forall|i: int, j: int|
            0 <= i < t.len() && 0 <= j < t.len() && i != j implies #[trigger] t[i].claim@
            != #[trigger] t[j].claim@ by {
            if i < s.len() && j < s.len() {
                assert(t[i] == s[i] && t[j] == s[j]);
            } else if i < s.len() {
                assert(t[i] == s[i]);
            } else {
                assert(t[j] == s[j]);
            }
        }
    }
    let m = records_map(s).insert(r.claim@, (r.owner, r.block_number));
    assert forall|k: Seq<u8>| #[trigger] records_map(t).contains_key(k) <==> m.contains_key(k) by {
        if records_map(t).contains_key(k) {
            let i = choose|i: int| 0 <= i < t.len() && #[trigger] t[i].claim@ == k;
            if i < s.len() {
                assert(t[i] == s[i]);
                lemma_records_map_at(s, i);
            }
        }
        if m.contains_key(k) && k != r.claim@ {
            let i = choose|i: int| 0 <= i < s.len() && #[trigger] s[i].claim@ == k;
            assert(t[i] == s[i]);
            lemma_records_map_at(t, i);
        }
        if k == r.claim@ {
            lemma_records_map_at(t, s.len() as int);
        }
    }
    assert forall|k: Seq<u8>| #[trigger] records_map(t).contains_key(k) implies records_map(t)[k]
        == m[k] by {
        if k == r.claim@ {
            lemma_records_map_at(t, s.len() as int);
        } else {
            let i = choose|i: int| 0 <= i < s.len() && #[trigger] s[i].claim@ == k;
            assert(t[i] == s[i]);
            lemma_records_map_at(t, i);
            lemma_records_map_at(s, i);
        }
    }
    assert(records_map(t) =~= m);
}

proof fn lemma_records_remove(s: Seq<ProofRecord>, i: int)
    requires
        distinct_claims(s),
        0 <= i < s.len(),
    ensures
        distinct_claims(s.remove(i)),
        records_map(s.remove(i)) == records_map(s).remove(s[i].claim@),
{
    let t = s.remove(i);
    let c = s[i].claim@;
    // index of an element of `t` in `s`
    assert forall|j: int| 0 <= j < t.len() implies #[trigger] t[j] == s[if j < i {
        j
    } else {
        j + 1
    }] by {}
    assert(distinct_claims(t)) by {
        assert forall|a: int, b: int|
            0 <= a < t.len() && 0 <= b < t.len() && a != b implies #[trigger] t[a].claim@
            != #[trigger] t[b].claim@ by {
            let a2 = if a < i {
                a
            } else {
                a + 1
            };
            let b2 = if b < i {
                b
            } else {
                b + 1
            };
            assert(t[a] == s[a2]);
            assert(t[b] == s[b2]);
        }
    }
    let m = records_map(s).remove(c);
    assert forall|k: Seq<u8>| #[trigger] records_map(t).contains_key(k) <==> m.contains_key(k) by {
        if records_map(t).contains_key(k) {
            let j = choose|j: int| 0 <= j < t.len() && #[trigger] t[j].claim@ == k;
            let j2 = if j < i {
                j
            } else {
                j + 1
            };
            assert(t[j] == s[j2]);
            lemma_records_map_at(s, j2);
        }
        if m.contains_key(k) {
            let j2 = choose|j: int| 0 <= j < s.len() && #[trigger] s[j].claim@ == k;
            assert(j2 != i);
            let j = if j2 < i {
                j2
            } else {
                j2 - 1
            };
            assert(t[j] == s[j2]);
            lemma_records_map_at(t, j);
        }
    }
    assert forall|k: Seq<u8>| #[trigger] records_map(t).contains_key(k) implies records_map(t)[k]
        == m[k] by {
        let j = choose|j: int| 0 <= j < t.len() && #[trigger] t[j].claim@ == k;
        let j2 = if j < i {
            j
        } else {
            j + 1
        };
        assert(t[j] == s[j2]);
        lemma_records_map_at(t, j);
        lemma_records_map_at(s, j2);
    }
    assert(records_map(t) =~= m);
}

proof fn lemma_records_update(s: Seq<ProofRecord>, i: int, r: ProofRecord)
    requires
        distinct_claims(s),
        0 <= i < s.len(),
        r.claim@ == s[i].claim@,
    ensures
        distinct_claims(s.update(i, r)),
        records_map(s.update(i, r)) == records_map(s).insert(r.claim@, (r.owner, r.block_number)),
{
    let t = s.update(i, r);
    assert(distinct_claims(t)) by {
        assert forall|a: int, b: int|
            0 <= a < t.len() && 0 <= b < t.len() && a != b implies #[trigger] t[a].claim@
            != #[trigger] t[b].claim@ by {
            assert(t[a].claim@ == s[a].claim@);
            assert(t[b].claim@ == s[b].claim@);
        }
    }
    let m = records_map(s).insert(r.claim@, (r.owner, r.block_number));
    assert forall|k: Seq<u8>| #[trigger] records_map(t).contains_key(k) <==> m.contains_key(k) by {
        if records_map(t).contains_key(k) {
            let j = choose|j: int| 0 <= j < t.len() && #[trigger] t[j].claim@ == k;
            assert(t[j].claim@ == s[j].claim@);
            lemma_records_map_at(s, j);
        }
        if m.contains_key(k) {
            if k == r.claim@ {
                lemma_records_map_at(t, i);
            } else {
                let j = choose|j: int| 0 <= j < s.len() && #[trigger] s[j].claim@ == k;
                assert(t[j].claim@ == s[j].claim@);
                lemma_records_map_at(t, j);
            }
        }
    }
    assert forall|k: Seq<u8>| #[trigger] records_map(t).contains_key(k) implies records_map(t)[k]
        == m[k] by {
        let j = choose|j: int| 0 <= j < t.len() && #[trigger] t[j].claim@ == k;
        lemma_records_map_at(t, j);
        if j != i {
            assert(t[j] == s[j]);
            lemma_records_map_at(s, j);
        }
    }
    assert(records_map(t) =~= m);
}

/// No claim is stored twice, and every claim is at most `max` bytes long.
spec fn records_fit(s: Seq<ProofRecord>, max: u32) -> bool {
    &&& distinct_claims(s)
    &&& forall|i: int| 0 <= i < s.len() ==> (#[trigger] s[i]).claim@.len() <= max
}

proof fn lemma_records_claims_fit(s: Seq<ProofRecord>, max: u32)
    requires
        records_fit(s, max),
    ensures
        claims_fit(records_map(s), max),
{
    assert forall|k: Seq<u8>| #[trigger] records_map(s).contains_key(k) implies k.len() <= max by {
        let i = choose|i: int| 0 <= i < s.len() && #[trigger] s[i].claim@ == k;
        assert(s[i].claim@.len() <= max);
    }
}

/// Whether two byte strings are equal.
fn bytes_eq(a: &[u8], b: &[u8]) -> (r: bool)
    ensures
        r == (a@ == b@),
{
    if a.len() != b.len() {
        return false;
    }
    let mut i: usize = 0;
    while i < a.len()
        invariant
            a@.len() == b@.len(),
            0 <= i <= a@.len(),
            forall|j: int| 0 <= j < i ==> a@[j] == b@[j],
        decreases a@.len() - i,
    {
        if a[i] != b[i] {
            return false;
        }
        i += 1;
    }
    assert(a@ =~= b@);
    true
}

/// The proof-of-existence pallet with its storage.
pub struct Pallet {
    proofs: Vec<ProofRecord>,
    max_claim_length: u32,
}

impl View for Pallet {
    type V = ProofsMap;

    closed spec fn view(&self) -> ProofsMap {
        records_map(self.proofs@)
    }
}

impl Pallet {
    /// The longest claim the pallet is configured to accept.
    pub closed spec fn spec_max_claim_length(&self) -> u32 {
        self.max_claim_length
    }

    /// The storage is consistent: no claim is stored twice, and every claim
    /// fits the configured maximum length.
    #[verifier::type_invariant]
    spec fn wf(&self) -> bool {
        records_fit(self.proofs@, self.max_claim_length)
    }

    /// The pallet at genesis, configured with a maximum claim length: no claim.
    pub fn new(max_claim_length: u32) -> (r: Pallet)
        ensures
            claims_fit(r@, r.spec_max_claim_length()),
            r@ == Map::<Seq<u8>, (AccountId, BlockNumber)>::empty(),
            r.spec_max_claim_length() == max_claim_length,
    {
        let r = Pallet { proofs: Vec::new(), max_claim_length };
        assert(r@ =~= Map::<Seq<u8>, (AccountId, BlockNumber)>::empty());
        r
    }

    /// The longest claim the pallet accepts.
    pub fn max_claim_length(&self) -> (r: u32)
        ensures
            r == self.spec_max_claim_length(),
    {
        self.max_claim_length
    }

    /// The index of the record of `claim`, if it is stored.
    fn find(&self, claim: &[u8]) -> (r: Option<usize>)
        requires
            records_fit(self.proofs@, self.max_claim_length),
        ensures
            match r {
                Some(i) => {
                    &&& i < self.proofs@.len()
                    &&& self.proofs@[i as int].claim@ == claim@
                    &&& self@.contains_key(claim@)
                    &&& self@[claim@] == (
                        self.proofs@[i as int].owner,
                        self.proofs@[i as int].block_number,
                    )
                },
                None => !self@.contains_key(claim@),
            },
    {
        let mut i: usize = 0;
        while i < self.proofs.len()
            invariant
                records_fit(self.proofs@, self.max_claim_length),
                0 <= i <= self.proofs@.len(),
                forall|j: int| 0 <= j < i ==> #[trigger] self.proofs@[j].claim@ != claim@,
            decreases self.proofs@.len() - i,
        {
            if bytes_eq(self.proofs[i].claim.as_slice(), claim) {
                proof {
                    lemma_records_map_at(self.proofs@, i as int);
                }
                return Some(i);
            }
            i += 1;
        }
        proof {
            lemma_records_map_absent(self.proofs@, claim@);
        }
        None
    }

    /// The owner of `claim` and the block it was stored at, if it is stored.
    pub fn proofs(&self, claim: &BoundedVec) -> (r: Option<(AccountId, BlockNumber)>)
        ensures
            match r {
                Some(v) => self@.contains_key(claim@) && v == self@[claim@],
                None => !self@.contains_key(claim@),
            },
    {
        proof {
            use_type_invariant(self);
        }
        match self.find(claim.as_slice()) {
            Some(i) => Some((self.proofs[i].owner, self.proofs[i].block_number)),
            None => None,
        }
    }

    /// Claims `claim` for the signer at `block_number`, unless it is claimed.
    pub fn create_claim(&mut self, origin: Origin, claim: BoundedVec, block_number: BlockNumber) -> (r:
        Result<(), DispatchError<Error>>)
        requires
            claim@.len() <= old(self).spec_max_claim_length(),
        ensures
            claims_fit(final(self)@, final(self).spec_max_claim_length()),
            final(self).spec_max_claim_length() == old(self).spec_max_claim_length(),
            final(self)@ == create_claim_step(old(self)@, origin, claim@, block_number).0,
            r == create_claim_step(old(self)@, origin, claim@, block_number).1,
    {
        proof {
            use_type_invariant(&*self);
        }
        let sender = match ensure_signed(origin) {
            Ok(who) => who,
            Err(_) => return Err(DispatchError::BadOrigin),
        };
        if self.find(claim.as_slice()).is_some() {
            return Err(DispatchError::Module(Error::ClaimAlreadyExist));
        }
        let record = ProofRecord { claim, owner: sender, block_number };
        proof {
            lemma_records_push(self.proofs@, record);
            lemma_records_claims_fit(self.proofs@.push(record), self.max_claim_length);
        }
        let mut proofs: Vec<ProofRecord> = Vec::new();
        std::mem::swap(&mut proofs, &mut self.proofs);
        proofs.push(record);
        self.proofs = proofs;
        Ok(())
    }

    /// Removes `claim`, which the signer owns.
    pub fn revoke_claim(&mut self, origin: Origin, claim: BoundedVec) -> (r: Result<
        (),
        DispatchError<Error>,
    >)
        ensures
            claims_fit(final(self)@, final(self).spec_max_claim_length()),
            final(self).spec_max_claim_length() == old(self).spec_max_claim_length(),
            final(self)@ == revoke_claim_step(old(self)@, origin, claim@).0,
            r == revoke_claim_step(old(self)@, origin, claim@).1,
    {
        proof {
            use_type_invariant(&*self);
        }
        let sender = match ensure_signed(origin) {
            Ok(who) => who,
            Err(_) => return Err(DispatchError::BadOrigin),
        };
        let i = match self.find(claim.as_slice()) {
            Some(i) => i,
            None => return Err(DispatchError::Module(Error::ClaimNotExist)),
        };
        if self.proofs[i].owner != sender {
            return Err(DispatchError::Module(Error::NotClaimOwner));
        }
        proof {
            lemma_records_remove(self.proofs@, i as int);
            lemma_records_claims_fit(self.proofs@.remove(i as int), self.max_claim_length);
        }
        let mut proofs: Vec<ProofRecord> = Vec::new();
        std::mem::swap(&mut proofs, &mut self.proofs);
        proofs.remove(i);
        self.proofs = proofs;
        Ok(())
    }

    /// Gives `claim`, which the signer owns, to `dest` at `block_number`.
    pub fn transfer_claim(
        &mut self,
        origin: Origin,
        dest: AccountId,
        claim: BoundedVec,
        block_number: BlockNumber,
    ) -> (r: Result<(), DispatchError<Error>>)
        ensures
            claims_fit(final(self)@, final(self).spec_max_claim_length()),
            final(self).spec_max_claim_length() == old(self).spec_max_claim_length(),
            final(self)@ == transfer_claim_step(old(self)@, origin, dest, claim@, block_number).0,
            r == transfer_claim_step(old(self)@, origin, dest, claim@, block_number).1,
    {
        proof {
            use_type_invariant(&*self);
        }
        let sender = match ensure_signed(origin) {
            Ok(who) => who,
            Err(_) => return Err(DispatchError::BadOrigin),
        };
        let i = match self.find(claim.as_slice()) {
            Some(i) => i,
            None => return Err(DispatchError::Module(Error::ClaimNotExist)),
        };
        if self.proofs[i].owner != sender {
            return Err(DispatchError::Module(Error::NotClaimOwner));
        }
        if dest == sender {
            return Err(DispatchError::Module(Error::TransferToOwner));
        }
        let ghost before = self.proofs@;
        let mut proofs: Vec<ProofRecord> = Vec::new();
        std::mem::swap(&mut proofs, &mut self.proofs);
        let old_record = proofs.remove(i);
        let record = ProofRecord { claim: old_record.claim, owner: dest, block_number };
        proof {
            assert(before.remove(i as int).insert(i as int, record) =~= before.update(
                i as int,
                record,
            ));
            lemma_records_update(before, i as int, record);
            lemma_records_claims_fit(before.update(i as int, record), self.max_claim_length);
        }
        proofs.insert(i, record);
        self.proofs = proofs;
        Ok(())
    }
}

/// `create_claim` succeeds exactly for a signed origin and an unclaimed byte
/// string; then the claim maps to the signer and the block, and no other
/// claim changes.
pub proof fn lemma_create_claim_outcome(
    s: ProofsMap,
    origin: Origin,
    claim: Seq<u8>,
    block_number: BlockNumber,
)
    ensures
        (create_claim_step(s, origin, claim, block_number).1 is Ok) <==> (signer_of(origin) is Some
            && !s.contains_key(claim)),
        create_claim_step(s, origin, claim, block_number).1 is Ok ==> ({
            let t = create_claim_step(s, origin, claim, block_number).0;
            &&& t.contains_key(claim)
            &&& t[claim] == (signer_of(origin)->Some_0, block_number)
            &&& forall|k: Seq<u8>|
                k != claim ==> (#[trigger] t.contains_key(k) <==> s.contains_key(k)) && (
                s.contains_key(k) ==> t[k] == s[k])
        }),
{
}

/// `revoke_claim` succeeds exactly when the signer owns the claim; then the
/// claim is gone and no other claim changes.
pub proof fn lemma_revoke_claim_outcome(s: ProofsMap, origin: Origin, claim: Seq<u8>)
    ensures
        (revoke_claim_step(s, origin, claim).1 is Ok) <==> (signer_of(origin) is Some
            && s.contains_key(claim) && s[claim].0 == signer_of(origin)->Some_0),
        revoke_claim_step(s, origin, claim).1 is Ok ==> ({
            let t = revoke_claim_step(s, origin, claim).0;
            &&& !t.contains_key(claim)
            &&& forall|k: Seq<u8>|
                k != claim ==> (#[trigger] t.contains_key(k) <==> s.contains_key(k)) && (
                s.contains_key(k) ==> t[k] == s[k])
        }),
{
}

/// `transfer_claim` succeeds exactly when the signer owns the claim and the
/// destination is someone else; then the claim maps to the destination and
/// the block, and no other claim changes.
pub proof fn lemma_transfer_claim_outcome(
    s: ProofsMap,
    origin: Origin,
    dest: AccountId,
    claim: Seq<u8>,
    block_number: BlockNumber,
)
    ensures
        (transfer_claim_step(s, origin, dest, claim, block_number).1 is Ok) <==> (signer_of(
            origin,
        ) is Some && s.contains_key(claim) && s[claim].0 == signer_of(origin)->Some_0 && dest
            != signer_of(origin)->Some_0),
        transfer_claim_step(s, origin, dest, claim, block_number).1 is Ok ==> ({
            let t = transfer_claim_step(s, origin, dest, claim, block_number).0;
            &&& t.contains_key(claim)
            &&& t[claim] == (dest, block_number)
            &&& forall|k: Seq<u8>|
                k != claim ==> (#[trigger] t.contains_key(k) <==> s.contains_key(k)) && (
                s.contains_key(k) ==> t[k] == s[k])
        }),
{
}

/// After a claim is created, reading it gives the creator and the block; no
/// other claim changes.
pub proof fn lemma_create_then_read(
    s: ProofsMap,
    who: AccountId,
    claim: Seq<u8>,
    block_number: BlockNumber,
)
    requires
        !s.contains_key(claim),
    ensures
        ({
            let (t, r) = create_claim_step(s, Origin::Signed(who), claim, block_number);
            &&& r is Ok
            &&& t.contains_key(claim)
            &&& t[claim] == (who, block_number)
            &&& forall|k: Seq<u8>| k != claim ==> (#[trigger] t.contains_key(k) <==> s.contains_key(k))
            &&& forall|k: Seq<u8>| k != claim && s.contains_key(k) ==> #[trigger] t[k] == s[k]
        }),
{
}

/// Creating a claim that fits the maximum length keeps every claim within it;
/// revoking and transferring keep it too.
pub proof fn lemma_calls_keep_claims_fit(
    s: ProofsMap,
    origin: Origin,
    dest: AccountId,
    claim: Seq<u8>,
    block_number: BlockNumber,
    max: u32,
)
    requires
        claims_fit(s, max),
        claim.len() <= max,
    ensures
        claims_fit(create_claim_step(s, origin, claim, block_number).0, max),
        claims_fit(revoke_claim_step(s, origin, claim).0, max),
        claims_fit(transfer_claim_step(s, origin, dest, claim, block_number).0, max),
{
}

/// Revoking a claim one has just created restores the storage as it was.
pub proof fn lemma_revoke_undoes_create(
    s: ProofsMap,
    who: AccountId,
    claim: Seq<u8>,
    block_number: BlockNumber,
)
    requires
        create_claim_step(s, Origin::Signed(who), claim, block_number).1 is Ok,
    ensures
        ({
            let t = create_claim_step(s, Origin::Signed(who), claim, block_number).0;
            let u = revoke_claim_step(t, Origin::Signed(who), claim);
            u.1 is Ok && u.0 == s
        }),
{
    let t = create_claim_step(s, Origin::Signed(who), claim, block_number).0;
    assert(revoke_claim_step(t, Origin::Signed(who), claim).0 =~= s);
}

/// Transferring a claim and transferring it back gives it back to its owner,
/// recorded at the block of the second transfer.
pub proof fn lemma_transfer_back_restores_owner(
    s: ProofsMap,
    a: AccountId,
    b: AccountId,
    claim: Seq<u8>,
    block_1: BlockNumber,
    block_2: BlockNumber,
)
    requires
        transfer_claim_step(s, Origin::Signed(a), b, claim, block_1).1 is Ok,
    ensures
        ({
            let t = transfer_claim_step(s, Origin::Signed(a), b, claim, block_1).0;
            let u = transfer_claim_step(t, Origin::Signed(b), a, claim, block_2);
            u.1 is Ok && u.0 == s.insert(claim, (a, block_2))
        }),
{
    let t = transfer_claim_step(s, Origin::Signed(a), b, claim, block_1).0;
    assert(transfer_claim_step(t, Origin::Signed(b), a, claim, block_2).0 =~= s.insert(
        claim,
        (a, block_2),
    ));
}

/// A refused call changes no claim.
pub proof fn lemma_refused_calls_change_nothing(
    s: ProofsMap,
    origin: Origin,
    dest: AccountId,
    claim: Seq<u8>,
    block_number: BlockNumber,
)
    ensures
        create_claim_step(s, origin, claim, block_number).1 is Err ==> create_claim_step(
            s,
            origin,
            claim,
            block_number,
        ).0 == s,
        revoke_claim_step(s, origin, claim).1 is Err ==> revoke_claim_step(s, origin, claim).0 == s,
        transfer_claim_step(s, origin, dest, claim, block_number).1 is Err ==> transfer_claim_step(
            s,
            origin,
            dest,
            claim,
            block_number,
        ).0 == s,
{
}

/// Only the owner of a claim can change its record: a call from any other
/// origin leaves it as it was.
pub proof fn lemma_only_owner_changes_claim(
    s: ProofsMap,
    origin: Origin,
    dest: AccountId,
    claim: Seq<u8>,
    block_number: BlockNumber,
)
    requires
        s.contains_key(claim),
        signer_of(origin) != Some(s[claim].0),
    ensures
        create_claim_step(s, origin, claim, block_number).0 == s,
        revoke_claim_step(s, origin, claim).0 == s,
        transfer_claim_step(s, origin, dest, claim, block_number).0 == s,
{
}

impl Clone for BoundedVec {
    fn clone(&self) -> (r: Self)
        ensures
            r@ == self@,
            r.spec_bound() == self.spec_bound(),
    {
        proof {
            use_type_invariant(self);
        }
        let mut items: Vec<u8> = Vec::new();
        let mut i: usize = 0;
        while i < self.items.len()
            invariant
                0 <= i <= self.items@.len(),
                items@ == self.items@.subrange(0, i as int),
            decreases self.items@.len() - i,
        {
            items.push(self.items[i]);
            i += 1;
            assert(items@ =~= self.items@.subrange(0, i as int));
        }
        assert(items@ =~= self.items@);
        BoundedVec { items, bound: self.bound }
    }
}

} // verus!
