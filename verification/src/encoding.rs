//! The encodings a solution is made of: RLP for its parts, Blake2b for its
//! score.

use vstd::prelude::*;

verus! {

/// The RLP encoding of an unsigned 64-bit integer.
pub uninterp spec fn rlp_of_u64(value: u64) -> Seq<u8>;

/// The RLP encoding of a list of unsigned 32-bit integers.
pub uninterp spec fn rlp_of_u32_list(items: Seq<u32>) -> Seq<u8>;

/// The 32-byte Blake2b digest of a message, unkeyed.
pub uninterp spec fn blake2b_256(message: Seq<u8>) -> Seq<u8>;

/// RLP-encodes an integer.
///
/// Calls `rlp::encode` on a `u64`. Trusted: the bytes returned depend on the
/// value alone.
#[verifier::external_body]
pub(crate) fn rlp_u64(value: u64) -> (bytes: Vec<u8>)
    ensures
        bytes@ == rlp_of_u64(value),
{
    rlp::encode(&value).to_vec()
}

/// RLP-encodes a list of integers.
///
/// Calls `rlp::encode_list` on a slice of `u32`. Trusted: the bytes returned
/// depend on the items alone.
#[verifier::external_body]
pub(crate) fn rlp_u32_list(items: &[u32]) -> (bytes: Vec<u8>)
    ensures
        bytes@ == rlp_of_u32_list(items@),
{
    rlp::encode_list::<u32, u32>(items).to_vec()
}

/// The Blake2b digest of `message`, 32 bytes long.
///
/// Feeds `message` to a `crypto::blake2b::Blake2b` made for 32 bytes of
/// output and takes its result. Trusted: the digest depends on the message
/// alone.
#[verifier::external_body]
pub fn blake256(message: &[u8]) -> (digest: [u8; 32])
    ensures
        digest@ == blake2b_256(message@),
{
    let mut digest = [0u8; 32];
    let mut hasher = crypto::blake2b::Blake2b::new(32);
    crypto::digest::Digest::input(&mut hasher, message);
    crypto::digest::Digest::result(&mut hasher, &mut digest);
    digest
}

} // verus!
