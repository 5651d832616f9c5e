use keccak_sponge::sponge::raw_keccak;
use keccak_sponge::validate::{check_digests, same_digest, validate, DigestSource};
use sha3::Digest;
use tiny_keccak::Hasher;

fn pseudo_random_bytes(len: usize, seed: u64) -> Vec<u8> {
    let mut x = seed.wrapping_mul(6364136223846793005).wrapping_add(1442695040888963407);
    let mut out = Vec::with_capacity(len);
    for _ in 0..len {
        x = x.wrapping_mul(6364136223846793005).wrapping_add(1442695040888963407);
        out.push((x >> 33) as u8);
    }
    out
}

fn from_hex(s: &str) -> [u8; 32] {
    let mut out = [0u8; 32];
    for i in 0..32 {
        out[i] = u8::from_str_radix(&s[2 * i..2 * i + 2], 16).unwrap();
    }
    out
}

fn tiny_reference(input: &[u8]) -> [u8; 32] {
    let mut hasher = tiny_keccak::Keccak::v256();
    hasher.update(input);
    let mut out = [0u8; 32];
    hasher.finalize(&mut out);
    out
}

fn rust_crypto_reference(input: &[u8]) -> [u8; 32] {
    let mut hasher = sha3::Keccak256::new();
    hasher.update(input);
    hasher.finalize().into()
}

#[test]
fn empty_input_known_vector() {
    let expected = from_hex("c5d2460186f7233c927e7db2dcc703c0e500b653ca82273b7bfad8045d85a470");
    assert_eq!(raw_keccak(&[]), expected);
}

#[test]
fn abc_known_vector() {
    let expected = from_hex("4e03657aea45a94fc7d47ba826c8d667c0d1e6e33a64a036ec44f58fa12d6c45");
    assert_eq!(raw_keccak(b"abc"), expected);
}

#[test]
fn hello_world_known_vector() {
    let expected = from_hex("47173285a8d7341e5e972fc677286384f802f8ef42a5ec5f03bbfa254cb01fad");
    assert_eq!(raw_keccak(b"hello world"), expected);
}

#[test]
fn rate_boundary_lengths_match_references() {
    for (n, len) in [0usize, 1, 135, 136, 137, 272].iter().enumerate() {
        let input = pseudo_random_bytes(*len, n as u64 + 7);
        let digest = raw_keccak(&input);
        assert_eq!(digest, tiny_reference(&input), "length {}", len);
        assert_eq!(digest, rust_crypto_reference(&input), "length {}", len);
    }
}

#[test]
fn same_input_twice_same_digest() {
    let input = pseudo_random_bytes(200, 3);
    assert_eq!(raw_keccak(&input), raw_keccak(&input.clone()));
}

#[test]
fn all_sources_agree_up_to_three_hundred_bytes() {
    for len in 0..=300usize {
        let input = pseudo_random_bytes(len, len as u64);
        let sponge = DigestSource::Sponge.digest(&input);
        assert_eq!(sponge, DigestSource::TinyKeccak.digest(&input), "length {}", len);
        assert_eq!(sponge, DigestSource::RustCryptoSha3.digest(&input), "length {}", len);
        assert_eq!(validate(&input).unwrap(), sponge, "length {}", len);
    }
}

// The sponge without its padding window, built from the permutation directly.
fn digest_without_padding_window(input: &[u8]) -> [u8; 32] {
    let mut state = [0u64; 25];
    for block in input.chunks(136) {
        for (i, b) in block.iter().enumerate() {
            state[i / 8] ^= (*b as u64) << ((i % 8) * 8);
        }
        tiny_keccak::keccakf(&mut state);
    }
    let mut out = [0u8; 32];
    for i in 0..32 {
        out[i] = (state[i / 8] >> ((i % 8) * 8)) as u8;
    }
    out
}

// The sponge with an all-zero window in place of the padding window.
fn digest_with_zero_window(input: &[u8]) -> [u8; 32] {
    let mut state = [0u64; 25];
    for block in input.chunks(136) {
        for (i, b) in block.iter().enumerate() {
            state[i / 8] ^= (*b as u64) << ((i % 8) * 8);
        }
        tiny_keccak::keccakf(&mut state);
    }
    tiny_keccak::keccakf(&mut state);
    let mut out = [0u8; 32];
    for i in 0..32 {
        out[i] = (state[i / 8] >> ((i % 8) * 8)) as u8;
    }
    out
}

#[test]
fn full_windows_get_their_own_padding_window() {
    for (n, len) in [136usize, 272].iter().enumerate() {
        let input = pseudo_random_bytes(*len, 40 + n as u64);
        let digest = raw_keccak(&input);
        assert_eq!(digest, tiny_reference(&input));
        assert_ne!(digest, digest_without_padding_window(&input));
        assert_ne!(digest, digest_with_zero_window(&input));
    }
}

#[test]
fn distinct_full_window_inputs_differ() {
    let a = pseudo_random_bytes(136, 1);
    let mut b = a.clone();
    b[135] ^= 1;
    assert_ne!(raw_keccak(&a), raw_keccak(&b));
    let zeros = vec![0u8; 136];
    let longer = vec![0u8; 137];
    assert_ne!(raw_keccak(&zeros), raw_keccak(&longer));
}

#[test]
fn last_rate_byte_carries_both_markers() {
    let input = pseudo_random_bytes(135, 11);
    assert_eq!(raw_keccak(&input), rust_crypto_reference(&input));
    let long = pseudo_random_bytes(271, 12);
    assert_eq!(raw_keccak(&long), rust_crypto_reference(&long));
}

#[test]
fn sources_give_known_vector() {
    let expected = from_hex("4e03657aea45a94fc7d47ba826c8d667c0d1e6e33a64a036ec44f58fa12d6c45");
    assert_eq!(DigestSource::TinyKeccak.digest(b"abc"), expected);
    assert_eq!(DigestSource::RustCryptoSha3.digest(b"abc"), expected);
    assert_eq!(DigestSource::Sponge.digest(b"abc"), expected);
}

#[test]
fn validate_returns_the_digest() {
    let expected = from_hex("c5d2460186f7233c927e7db2dcc703c0e500b653ca82273b7bfad8045d85a470");
    assert_eq!(validate(&[]).unwrap(), expected);
}

#[test]
fn check_digests_all_agree() {
    let a = [7u8; 32];
    assert_eq!(check_digests(a, a, a).unwrap(), a);
}

#[test]
fn check_digests_tiny_keccak_mismatch() {
    let a = [7u8; 32];
    let mut b = a;
    b[31] = 8;
    let e = check_digests(a, b, b).unwrap_err();
    assert_eq!(e.source, DigestSource::TinyKeccak);
    assert_eq!(e.sponge, a);
    assert_eq!(e.reference, b);
}

#[test]
fn check_digests_rust_crypto_mismatch() {
    let a = [7u8; 32];
    let mut b = a;
    b[0] = 0;
    let e = check_digests(a, a, b).unwrap_err();
    assert_eq!(e.source, DigestSource::RustCryptoSha3);
    assert_eq!(e.sponge, a);
    assert_eq!(e.reference, b);
}

#[test]
fn same_digest_compares_every_byte() {
    let a = [1u8; 32];
    let mut b = a;
    assert!(same_digest(&a, &b));
    b[31] = 0;
    assert!(!same_digest(&a, &b));
    b = a;
    b[0] = 0;
    assert!(!same_digest(&a, &b));
}
