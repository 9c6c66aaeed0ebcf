//! Keccak-256, the hash of the protocol.

use vstd::prelude::*;

verus! {

/// The Keccak-256 digest of `data`.
///
/// The digest is computed outside this crate and nothing is proved of it
/// here: the name stands for what the hash function returns.
pub uninterp spec fn keccak256(data: Seq<u8>) -> Seq<u8>;

/// Hashes `data` with `keccak::hash` of `solana_program`, as `anchor_lang`
/// hands it on, and gives the 32 bytes of the digest. The digest depends on
/// the bytes of `data` alone.
#[verifier::external_body]
#[allow(deprecated)]
pub(crate) fn hash(data: &[u8]) -> (digest: [u8; 32])
    ensures
        digest@ == keccak256(data@),
{
    anchor_lang::solana_program::keccak::hash(data).to_bytes()
}

} // verus!
