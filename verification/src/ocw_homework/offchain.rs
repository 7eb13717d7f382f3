//! Keys of the offchain index.

use crate::dispatch::BlockNumber;
use crate::scale::{encode_u32, encode_u64, le_bytes};
use vstd::prelude::*;

verus! {

/// The key under which a block's entry for `key` is stored: `key`, then `@`,
/// then the SCALE encoding of the block number.
pub open spec fn derived_key_bytes(block_number: BlockNumber, key: Seq<u8>) -> Seq<u8> {
    key + seq![0x40u8] + le_bytes(block_number as nat, 8)
}

/// Derives the offchain-index key of `key` for a block number of any width,
/// given its SCALE encoding: `key`, then `@`, then the encoded block number.
pub fn derived_key_from_encoded(encoded_block_number: &[u8], key: &[u8]) -> (r: Vec<u8>)
    ensures
        r@ == key@ + seq![0x40u8] + encoded_block_number@,
{
    let mut r: Vec<u8> = Vec::new();
    let mut i: usize = 0;
    while i < key.len()
        invariant
            0 <= i <= key@.len(),
            r@ == key@.subrange(0, i as int),
        decreases key@.len() - i,
    {
        r.push(key[i]);
        i += 1;
        assert(r@ =~= key@.subrange(0, i as int));
    }
    assert(r@ =~= key@);
    r.push(0x40u8);
    let ghost prefix = r@;
    let mut j: usize = 0;
    while j < encoded_block_number.len()
        invariant
            0 <= j <= encoded_block_number@.len(),
            r@ == prefix + encoded_block_number@.subrange(0, j as int),
        decreases encoded_block_number@.len() - j,
    {
        r.push(encoded_block_number[j]);
        j += 1;
        assert(r@ =~= prefix + encoded_block_number@.subrange(0, j as int));
    }
    assert(encoded_block_number@.subrange(0, encoded_block_number@.len() as int)
        =~= encoded_block_number@);
    r
}

/// Derives the offchain-index key of `key` at a `u64` block number.
pub fn derived_key(block_number: BlockNumber, key: &[u8]) -> (r: Vec<u8>)
    ensures
        r@ == derived_key_bytes(block_number, key@),
{
    let encoded_bn = encode_u64(block_number);
    derived_key_from_encoded(encoded_bn.as_slice(), key)
}

/// Derives the offchain-index key of `key` at a `u32` block number: `key`,
/// then `@`, then the 4 little-endian bytes of the block number.
pub fn derived_key_u32(block_number: u32, key: &[u8]) -> (r: Vec<u8>)
    ensures
        r@ == key@ + seq![0x40u8] + le_bytes(block_number as nat, 4),
{
    let encoded_bn = encode_u32(block_number);
    derived_key_from_encoded(encoded_bn.as_slice(), key)
}

/// The derived key is `key`, then the byte `@` (0x40), then the 8 bytes of
/// the block number, least significant first, whatever the block number.
pub proof fn lemma_derived_key_layout(block_number: BlockNumber, key: Seq<u8>)
    ensures
        derived_key_bytes(block_number, key).len() == key.len() + 9,
        derived_key_bytes(block_number, key).subrange(0, key.len() as int) == key,
        derived_key_bytes(block_number, key)[key.len() as int] == 0x40u8,
        forall|i: int|
            0 <= i < 8 ==> #[trigger] derived_key_bytes(block_number, key)[key.len() + 1 + i] as int
                == (block_number as int / vstd::arithmetic::power::pow(256, i as nat)) % 256,
{
    crate::scale::lemma_le_bytes_digits(block_number as nat, 8);
    let d = derived_key_bytes(block_number, key);
    assert(d.subrange(0, key.len() as int) =~= key);
    assert forall|i: int| 0 <= i < 8 implies #[trigger] d[key.len() + 1 + i] as int == (
    block_number as int / vstd::arithmetic::power::pow(256, i as nat)) % 256 by {
        assert(d[key.len() + 1 + i] == le_bytes(block_number as nat, 8)[i]);
    }
}

/// The key is `key` followed by `@` and the block number's bytes: it starts
/// with `key`, and two different block numbers give two different keys.
pub proof fn lemma_derived_key_prefix_and_distinct(
    key: Seq<u8>,
    block_1: BlockNumber,
    block_2: BlockNumber,
)
    ensures
        derived_key_bytes(block_1, key).subrange(0, key.len() as int) == key,
        derived_key_bytes(block_1, key).len() == key.len() + 9,
        block_1 != block_2 ==> derived_key_bytes(block_1, key) != derived_key_bytes(block_2, key),
{
    crate::scale::lemma_le_bytes_digits(block_1 as nat, 8);
    assert(derived_key_bytes(block_1, key).subrange(0, key.len() as int) =~= key);
    if block_1 != block_2 {
        assert(vstd::arithmetic::power::pow(256, 8) == 0x1_0000_0000_0000_0000) by {
            reveal_with_fuel(vstd::arithmetic::power::pow, 9);
        }
        crate::scale::lemma_le_bytes_injective(block_1 as nat, block_2 as nat, 8);
        let d1 = derived_key_bytes(block_1, key);
        let d2 = derived_key_bytes(block_2, key);
        crate::scale::lemma_le_bytes_digits(block_2 as nat, 8);
        assert(d1.subrange(key.len() + 1int, key.len() + 9int) =~= le_bytes(block_1 as nat, 8));
        assert(d2.subrange(key.len() + 1int, key.len() + 9int) =~= le_bytes(block_2 as nat, 8));
    }
}

} // verus!
