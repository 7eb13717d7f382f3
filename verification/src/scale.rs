//! SCALE encoding of the values the pallets hash or store, through the
//! `parity-scale-codec` crate.

use parity_scale_codec::Encode;
use vstd::prelude::*;

verus! {

/// The `n` little-endian bytes of `x` (its low `n` bytes).
pub open spec fn le_bytes(x: nat, n: nat) -> Seq<u8>
    decreases n,
{
    if n == 0 {
        seq![]
    } else {
        seq![(x % 256) as u8] + le_bytes(x / 256, (n - 1) as nat)
    }
}

/// `le_bytes(x, n)` holds `n` bytes, byte `i` being digit `i` of `x` in base
/// 256, least significant first.
pub proof fn lemma_le_bytes_digits(x: nat, n: nat)
    ensures
        le_bytes(x, n).len() == n,
        forall|i: int|
            0 <= i < n ==> #[trigger] le_bytes(x, n)[i] as int == (x as int / vstd::arithmetic::power::pow(
                256,
                i as nat,
            )) % 256,
    decreases n,
{
    if n > 0 {
        lemma_le_bytes_digits(x / 256, (n - 1) as nat);
        assert forall|i: int| 0 <= i < n implies #[trigger] le_bytes(x, n)[i] as int == (x as int
            / vstd::arithmetic::power::pow(256, i as nat)) % 256 by {
            reveal(vstd::arithmetic::power::pow);
            if i == 0 {
                assert(vstd::arithmetic::power::pow(256, 0) == 1);
            } else {
                let p = vstd::arithmetic::power::pow(256, (i - 1) as nat);
                vstd::arithmetic::power::lemma_pow_positive(256, (i - 1) as nat);
                assert(vstd::arithmetic::power::pow(256, i as nat) == 256 * p);
                vstd::arithmetic::div_mod::lemma_div_denominator(x as int, 256, p);
                assert(le_bytes(x, n)[i] == le_bytes(x / 256, (n - 1) as nat)[i - 1]);
            }
        }
    }
}

/// Two numbers below `256^n` have different `n`-byte little-endian
/// encodings.
pub proof fn lemma_le_bytes_injective(a: nat, b: nat, n: nat)
    requires
        a != b,
        a < vstd::arithmetic::power::pow(256, n),
        b < vstd::arithmetic::power::pow(256, n),
    ensures
        le_bytes(a, n) != le_bytes(b, n),
{
    lemma_le_value_of_le_bytes(a, n);
    lemma_le_value_of_le_bytes(b, n);
    lemma_pow256_is_pow(n);
    lemma_pow256_positive(n);
    vstd::arithmetic::div_mod::lemma_small_mod(a, pow256(n));
    vstd::arithmetic::div_mod::lemma_small_mod(b, pow256(n));
}

proof fn lemma_pow256_is_pow(n: nat)
    ensures
        pow256(n) == vstd::arithmetic::power::pow(256, n),
    decreases n,
{
    reveal(vstd::arithmetic::power::pow);
    if n > 0 {
        lemma_pow256_is_pow((n - 1) as nat);
    }
}

proof fn lemma_le_bytes_len(x: nat, n: nat)
    ensures
        le_bytes(x, n).len() == n,
    decreases n,
{
    if n > 0 {
        lemma_le_bytes_len(x / 256, (n - 1) as nat);
    }
}

/// The value that `n` little-endian bytes spell.
spec fn le_value(s: Seq<u8>) -> nat
    decreases s.len(),
{
    if s.len() == 0 {
        0
    } else {
        s[0] as nat + 256 * le_value(s.drop_first())
    }
}

proof fn lemma_le_value_of_le_bytes(x: nat, n: nat)
    ensures
        le_value(le_bytes(x, n)) == x % pow256(n),
    decreases n,
{
    if n > 0 {
        let rest = le_bytes(x / 256, (n - 1) as nat);
        lemma_le_value_of_le_bytes(x / 256, (n - 1) as nat);
        assert(le_bytes(x, n).drop_first() =~= rest);
        lemma_pow256_positive((n - 1) as nat);
        lemma_mod_split(x, pow256((n - 1) as nat));
    }
}

spec fn pow256(n: nat) -> nat
    decreases n,
{
    if n == 0 {
        1
    } else {
        256 * pow256((n - 1) as nat)
    }
}

proof fn lemma_pow256_positive(n: nat)
    ensures
        pow256(n) > 0,
    decreases n,
{
    if n > 0 {
        lemma_pow256_positive((n - 1) as nat);
    }
}

/// `x % (256 * p) == x % 256 + 256 * ((x / 256) % p)`.
proof fn lemma_mod_split(x: nat, p: nat)
    requires
        p > 0,
    ensures
        x % (256 * p) == x % 256 + 256 * ((x / 256) % p),
{
    let q = x / 256;
    let r = x % 256;
    assert(x == 256 * q + r) by (nonlinear_arith)
        requires
            q == x / 256,
            r == x % 256,
    ;
    let q2 = q / p;
    let r2 = q % p;
    assert(q == p * q2 + r2) by (nonlinear_arith)
        requires
            p > 0,
            q2 == q / p,
            r2 == q % p,
    ;
    assert(x == (256 * p) * q2 + (r + 256 * r2)) by (nonlinear_arith)
        requires
            x == 256 * q + r,
            q == p * q2 + r2,
    ;
    assert(0 <= r + 256 * r2 < 256 * p) by (nonlinear_arith)
        requires
            0 <= r < 256,
            0 <= r2 < p,
    ;
    vstd::arithmetic::div_mod::lemma_fundamental_div_mod_converse(
        x as int,
        (256 * p) as int,
        q2 as int,
        (r + 256 * r2) as int,
    );
}

/// The SCALE encoding of an `Option<u32>`: a tag byte, then the value.
pub open spec fn option_u32_encoding(v: Option<u32>) -> Seq<u8> {
    match v {
        Some(x) => seq![1u8] + le_bytes(x as nat, 4),
        None => seq![0u8],
    }
}

/// The SCALE encoding of the tuple `((hash, block), account, extrinsic_index)`,
/// given the encoding of the block number: the 32 hash bytes, then each field
/// in turn.
pub open spec fn seeded_payload_encoding(
    hash: Seq<u8>,
    block_encoding: Seq<u8>,
    account: u64,
    extrinsic_index: Option<u32>,
) -> Seq<u8> {
    hash + block_encoding + le_bytes(account as nat, 8) + option_u32_encoding(extrinsic_index)
}

/// Calls `Encode::encode` of `parity-scale-codec` on a `u64`.
/// Claimed: the result is the 8 little-endian bytes of `x` (the crate encodes
/// fixed-width integers with `to_le_bytes`).
#[verifier::external_body]
pub(crate) fn encode_u64(x: u64) -> (r: Vec<u8>)
    ensures
        r@ == le_bytes(x as nat, 8),
{
    x.encode()
}

/// Calls `Encode::encode` of `parity-scale-codec` on a `u32`.
/// Claimed: the result is the 4 little-endian bytes of `x` (the crate encodes
/// fixed-width integers with `to_le_bytes`).
#[verifier::external_body]
pub(crate) fn encode_u32(x: u32) -> (r: Vec<u8>)
    ensures
        r@ == le_bytes(x as nat, 4),
{
    x.encode()
}

/// Calls `Encode::encode` of `parity-scale-codec` on the tuple
/// `((hash, block), account, extrinsic_index)` with a `u64` block number.
/// Claimed: tuples encode as their fields in order, a byte array as its bytes
/// with no length prefix, integers little-endian, and `Option` as a tag byte
/// (0 for `None`, 1 for `Some`) followed by the value.
#[verifier::external_body]
pub(crate) fn encode_seeded_payload_u64(
    hash: &[u8; 32],
    block: u64,
    account: u64,
    extrinsic_index: Option<u32>,
) -> (r: Vec<u8>)
    ensures
        r@ == seeded_payload_encoding(hash@, le_bytes(block as nat, 8), account, extrinsic_index),
{
    ((*hash, block), account, extrinsic_index).encode()
}

/// Calls `Encode::encode` of `parity-scale-codec` on the tuple
/// `((hash, block), account, extrinsic_index)` with a `u32` block number.
/// Claimed: as for the `u64` form, the block number taking 4 little-endian
/// bytes.
#[verifier::external_body]
pub(crate) fn encode_seeded_payload_u32(
    hash: &[u8; 32],
    block: u32,
    account: u64,
    extrinsic_index: Option<u32>,
) -> (r: Vec<u8>)
    ensures
        r@ == seeded_payload_encoding(hash@, le_bytes(block as nat, 4), account, extrinsic_index),
{
    ((*hash, block), account, extrinsic_index).encode()
}

} // verus!
