//! The cryptographic digest over encoded submissions.

use vstd::prelude::*;

verus! {

/// The 32-byte blake2b digest of a byte string. The digest is a function of
/// the input bytes alone; nothing shorter than the hash algorithm itself
/// states which bytes come out, so the result only carries this name.
pub uninterp spec fn blake2_256_of(data: Seq<u8>) -> Seq<u8>;

/// Relies on `sp_crypto_hashing::blake2_256`: a blake2b hash with a 32-byte
/// digest, computed from the input bytes alone.
#[verifier::external_body]
pub(crate) fn blake2_256(data: &Vec<u8>) -> (r: Vec<u8>)
    ensures
        r@ == blake2_256_of(data@),
        r@.len() == 32,
{
    sp_crypto_hashing::blake2_256(data.as_slice()).to_vec()
}

} // verus!
