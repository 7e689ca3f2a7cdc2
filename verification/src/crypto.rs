//! Hashing.

use vstd::prelude::*;

use crate::primitives::B256;

verus! {

/// The Keccak-256 hash of a byte sequence.
pub uninterp spec fn keccak(data: Seq<u8>) -> B256;

/// `alloy_primitives::keccak256`: the Keccak-256 hash of the bytes. What the hash is on given
/// bytes is not spelled out; the same bytes always have the same hash.
#[verifier::external_body]
pub(crate) fn keccak256(data: &[u8]) -> (hash: B256)
    ensures
        hash == keccak(data@),
{
    B256 { bytes: alloy_primitives::keccak256(data).0 }
}

} // verus!
