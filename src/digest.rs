//! SHA-256, computed by `bitcoin_hashes`.

use vstd::prelude::*;

verus! {

/// The SHA-256 digest of `data`.
pub uninterp spec fn sha256_of(data: Seq<u8>) -> [u8; 32];

/// Relies on `bitcoin_hashes::Hash::hash` for `sha256::Hash`: the SHA-256
/// digest of the bytes, which depends on the bytes alone.
#[verifier::external_body]
pub(crate) fn sha256(data: &[u8]) -> (r: [u8; 32])
    ensures
        r == sha256_of(data@),
{
    let h = <bitcoin_hashes::sha256::Hash as bitcoin_hashes::Hash>::hash(data);
    bitcoin_hashes::Hash::to_byte_array(h)
}

} // verus!
