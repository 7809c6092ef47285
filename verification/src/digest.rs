//! SHA-256 digests of submitted content.

use vstd::prelude::*;

verus! {

/// The SHA-256 digest of `data`.
pub uninterp spec fn sha256(data: Seq<u8>) -> Seq<u8>;

/// Trusted: `anchor_lang::solana_program::hash::hash`, followed by
/// `Hash::to_bytes`. Off chain that function feeds its argument to a SHA-256
/// hasher and returns the 32 bytes of the finished digest, so the result
/// depends on the bytes of `data` alone; the contract gives that result its
/// name and claims nothing else of it.
#[verifier::external_body]
pub(crate) fn hash_bytes(data: &[u8]) -> (digest: [u8; 32])
    ensures
        digest@ == sha256(data@),
{
    anchor_lang::solana_program::hash::hash(data).to_bytes()
}

} // verus!
