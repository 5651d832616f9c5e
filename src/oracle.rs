use vstd::prelude::*;

use sha3::Digest;
use tiny_keccak::Hasher;

verus! {

/// The digest that tiny-keccak's Keccak-256 hasher gives for a byte string.
pub uninterp spec fn tiny_keccak_256(m: Seq<u8>) -> Seq<u8>;

/// The digest that RustCrypto's `sha3::Keccak256` gives for a byte string.
pub uninterp spec fn rust_crypto_keccak_256(m: Seq<u8>) -> Seq<u8>;

/// Relies on `tiny_keccak::Keccak::v256` with one `update` and a `finalize`
/// into 32 bytes: the digest depends on the input bytes alone.
#[verifier::external_body]
pub(crate) fn tiny_keccak_digest(input: &[u8]) -> (digest: [u8; 32])
    ensures
        digest@ == tiny_keccak_256(input@),
{
    let mut hasher = tiny_keccak::Keccak::v256();
    hasher.update(input);
    let mut digest = [0u8; 32];
    hasher.finalize(&mut digest);
    digest
}

/// Relies on `sha3::Keccak256` with one `update` and a `finalize`: the
/// 32-byte digest depends on the input bytes alone.
#[verifier::external_body]
pub(crate) fn rust_crypto_digest(input: &[u8]) -> (digest: [u8; 32])
    ensures
        digest@ == rust_crypto_keccak_256(input@),
{
    let mut hasher = sha3::Keccak256::new();
    hasher.update(input);
    hasher.finalize().into()
}

} // verus!
