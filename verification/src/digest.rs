use k256::sha2::{Digest, Sha224, Sha256};
use vstd::prelude::*;

verus! {

/// The SHA-256 digest of a byte string, as `Sha256` of the `sha2` crate
/// computes it. Always 32 bytes long.
pub uninterp spec fn spec_sha256(data: Seq<u8>) -> Seq<u8>;

/// The SHA-224 digest of a byte string, as `Sha224` of the `sha2` crate
/// computes it. Always 28 bytes long.
pub uninterp spec fn spec_sha224(data: Seq<u8>) -> Seq<u8>;

/// Calls `Sha256::digest` of the `sha2` crate (reached through `k256`).
/// The contract only names the digest: nothing about SHA-256 itself is
/// proved here.
#[verifier::external_body]
pub(crate) fn sha256(data: &[u8]) -> (digest: [u8; 32])
    ensures
        digest@ == spec_sha256(data@),
{
    Sha256::digest(data).into()
}

/// Calls `Sha224::digest` of the `sha2` crate (reached through `k256`).
/// The contract only names the digest: nothing about SHA-224 itself is
/// proved here.
#[verifier::external_body]
pub(crate) fn sha224(data: &[u8]) -> (digest: [u8; 28])
    ensures
        digest@ == spec_sha224(data@),
{
    Sha224::digest(data).into()
}

/// The CRC-32 checksum of a byte string, as `hash` of the `crc32fast` crate
/// computes it.
pub uninterp spec fn spec_crc32(data: Seq<u8>) -> u32;

/// Calls `crc32fast::hash`. The contract only names the checksum.
#[verifier::external_body]
pub(crate) fn crc32(data: &[u8]) -> (sum: u32)
    ensures
        sum == spec_crc32(data@),
{
    crc32fast::hash(data)
}

} // verus!
