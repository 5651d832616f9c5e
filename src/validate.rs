use vstd::prelude::*;

use crate::oracle::{
    rust_crypto_digest, rust_crypto_keccak_256, tiny_keccak_256, tiny_keccak_digest,
};
use crate::sponge::{keccak256, raw_keccak};

verus! {

/// The three ways this library computes a Keccak-256 digest.
#[derive(Clone, Copy, Debug, PartialEq, Eq, Structural)]
pub enum DigestSource {
    /// The sponge of this library.
    Sponge,
    /// tiny-keccak's hasher.
    TinyKeccak,
    /// RustCrypto's `sha3::Keccak256`.
    RustCryptoSha3,
}

impl DigestSource {
    /// The digest that this source gives for `m`.
    pub open spec fn spec_digest(self, m: Seq<u8>) -> Seq<u8> {
        match self {
            DigestSource::Sponge => keccak256(m),
            DigestSource::TinyKeccak => tiny_keccak_256(m),
            DigestSource::RustCryptoSha3 => rust_crypto_keccak_256(m),
        }
    }

    /// Computes the digest of `input` the way this source does.
    pub fn digest(&self, input: &[u8]) -> (digest: [u8; 32])
        ensures
            digest@ == self.spec_digest(input@),
    {
        match self {
            DigestSource::Sponge => raw_keccak(input),
            DigestSource::TinyKeccak => tiny_keccak_digest(input),
            DigestSource::RustCryptoSha3 => rust_crypto_digest(input),
        }
    }
}

/// A reference hasher whose digest differs from the sponge's.
#[derive(Clone, Copy, Debug)]
pub struct DigestMismatch {
    /// The reference hasher that disagreed.
    pub source: DigestSource,
    /// The sponge's digest.
    pub sponge: [u8; 32],
    /// The reference hasher's digest.
    pub reference: [u8; 32],
}

/// What validation reports for a sponge digest and the two reference
/// digests: the sponge's digest when all three agree, else the first
/// reference (tiny-keccak, then RustCrypto) that differs, with both digests.
pub open spec fn validation_result(
    r: Result<[u8; 32], DigestMismatch>,
    sponge: Seq<u8>,
    tiny: Seq<u8>,
    rust_crypto: Seq<u8>,
) -> bool {
    match r {
        Ok(d) => d@ == sponge && tiny == sponge && rust_crypto == sponge,
        Err(e) => e.sponge@ == sponge && if tiny != sponge {
            e.source == DigestSource::TinyKeccak && e.reference@ == tiny
        } else {
            rust_crypto != sponge && e.source == DigestSource::RustCryptoSha3 && e.reference@
                == rust_crypto
        },
    }
}

/// Whether two digests hold the same bytes.
pub fn same_digest(a: &[u8; 32], b: &[u8; 32]) -> (same: bool)
    ensures
        same == (a@ == b@),
{
    for i in 0..32usize
        invariant
            forall|j: int| 0 <= j < i ==> a@[j] == b@[j],
    {
        if a[i] != b[i] {
            return false;
        }
    }
    assert(a@ =~= b@);
    true
}

/// Holds the sponge's digest against the two reference digests.
pub fn check_digests(sponge: [u8; 32], tiny: [u8; 32], rust_crypto: [u8; 32]) -> (r: Result<
    [u8; 32],
    DigestMismatch,
>)
    ensures
        validation_result(r, sponge@, tiny@, rust_crypto@),
{
    if !same_digest(&sponge, &tiny) {
        Err(DigestMismatch { source: DigestSource::TinyKeccak, sponge, reference: tiny })
    } else if !same_digest(&sponge, &rust_crypto) {
        Err(DigestMismatch { source: DigestSource::RustCryptoSha3, sponge, reference: rust_crypto })
    } else {
        Ok(sponge)
    }
}

/// Computes the digest of `input` with the sponge and with both reference
/// hashers, and returns it only when all three agree.
pub fn validate(input: &[u8]) -> (r: Result<[u8; 32], DigestMismatch>)
    ensures
        validation_result(
            r,
            keccak256(input@),
            tiny_keccak_256(input@),
            rust_crypto_keccak_256(input@),
        ),
{
    let sponge = DigestSource::Sponge.digest(input);
    let tiny = DigestSource::TinyKeccak.digest(input);
    let rust_crypto = DigestSource::RustCryptoSha3.digest(input);
    check_digests(sponge, tiny, rust_crypto)
}

} // verus!
