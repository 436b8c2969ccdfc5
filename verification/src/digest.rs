use sha2::Digest;
use vstd::prelude::*;

verus! {

/// The SHA-256 digest (FIPS 180-4) of a whole byte string, every byte in
/// order, as computed by the `sha2` crate.
pub uninterp spec fn sha256_digest(data: Seq<u8>) -> Seq<u8>;

/// Calls `sha2::Sha256::digest` (the one-shot API of `sha2::Digest`) on `data`
/// and returns the 32-byte digest.
/// Trusted: the result is exactly `sha256_digest(data@)`, the digest of all of
/// `data`; nothing else about SHA-256 is claimed.
#[verifier::external_body]
pub(crate) fn sha256(data: &[u8]) -> (digest: [u8; 32])
    ensures
        digest@ == sha256_digest(data@),
{
    sha2::Sha256::digest(data).into()
}

/// The SHA-256 digest of `data` as a 32-byte array.
pub open spec fn sha256_bytes32(data: Seq<u8>) -> [u8; 32] {
    choose|digest: [u8; 32]| digest@ == sha256_digest(data)
}

/// A 32-byte array that holds the SHA-256 digest of `data` is `sha256_bytes32(data)`.
pub proof fn lemma_sha256_bytes32(data: Seq<u8>, digest: [u8; 32])
    requires
        digest@ == sha256_digest(data),
    ensures
        digest == sha256_bytes32(data),
{
    let chosen = sha256_bytes32(data);
    assert(chosen@ == sha256_digest(data));
    assert(chosen =~= digest);
}

} // verus!
