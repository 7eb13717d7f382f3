//! The 128-bit Blake2 hash, through `sp-io`.

use vstd::prelude::*;

verus! {

/// The 128-bit Blake2b digest of `data`, as `sp_io::hashing::blake2_128`
/// computes it.
pub uninterp spec fn blake2_128_digest(data: Seq<u8>) -> Seq<u8>;

/// Calls `sp_io::hashing::blake2_128`.
/// Claimed: the result is the digest named `blake2_128_digest` of the bytes
/// given, and nothing else about it.
#[verifier::external_body]
pub(crate) fn blake2_128(data: &[u8]) -> (r: [u8; 16])
    ensures
        r@ == blake2_128_digest(data@),
{
    sp_io::hashing::blake2_128(data)
}

} // verus!
