use vstd::prelude::*;

use crate::permutation::{keccak_f, permute};

verus! {

/// Bytes of the state that input is XORed into and the digest is read from.
pub const RATE: usize = 136;

/// Lanes of 64 bits in the state.
pub const LANES: usize = 25;

/// Lanes covered by the rate.
pub const RATE_LANES: usize = 17;

/// Bytes in a digest.
pub const DIGEST_LEN: usize = 32;

/// Windows absorbed for an input of `len` bytes. The padding always ends the
/// last window, so an input that fills whole windows gets one more.
pub open spec fn num_windows(len: nat) -> nat {
    len / (RATE as nat) + 1
}

/// Byte `j` of the padded input: the input, then `0x01`, zeros, and `0x80`
/// on the last byte of the last window (`0x81` where the two meet).
pub open spec fn padded_byte(m: Seq<u8>, j: int) -> u8 {
    let last = num_windows(m.len()) * RATE - 1;
    if j < m.len() {
        m[j]
    } else if j == m.len() && j == last {
        0x81
    } else if j == m.len() {
        0x01
    } else if j == last {
        0x80
    } else {
        0
    }
}

/// The whole padded input.
pub open spec fn padded(m: Seq<u8>) -> Seq<u8> {
    Seq::new(num_windows(m.len()) * (RATE as nat), |j: int| padded_byte(m, j))
}

/// Window `k` of the padded input: its bytes `k * RATE .. (k + 1) * RATE`.
pub open spec fn window(m: Seq<u8>, k: int) -> Seq<u8> {
    Seq::new(RATE as nat, |i: int| padded_byte(m, k * RATE + i))
}

/// A byte placed at position `k` (0 to 7) of a lane.
pub open spec fn byte_in_lane(b: u8, k: int) -> u64 {
    (b as u64) << ((k * 8) as u64)
}

/// Lane `l` of window `w` with its first `k` bytes XORed in.
pub open spec fn lane_xor(w: Seq<u8>, l: int, k: nat) -> u64
    decreases k,
{
    if k == 0 {
        0
    } else {
        lane_xor(w, l, (k - 1) as nat) ^ byte_in_lane(w[l * 8 + k - 1], k - 1)
    }
}

/// The state with a window XORed into its rate lanes.
pub open spec fn absorb(s: Seq<u64>, w: Seq<u8>) -> Seq<u64> {
    Seq::new(LANES as nat, |l: int| if l < RATE_LANES { s[l] ^ lane_xor(w, l, 8) } else { s[l] })
}

/// The permutation as a map from 25 lanes to 25 lanes.
pub open spec fn permutation(s: Seq<u64>) -> Seq<u64> {
    Seq::new(LANES as nat, |l: int| keccak_f(s)[l])
}

/// The all-zero state.
pub open spec fn zero_state() -> Seq<u64> {
    Seq::new(LANES as nat, |l: int| 0u64)
}

/// The state after the first `k` windows of `m` were absorbed and permuted.
pub open spec fn state_after(m: Seq<u8>, k: nat) -> Seq<u64>
    decreases k,
{
    if k == 0 {
        zero_state()
    } else {
        permutation(absorb(state_after(m, (k - 1) as nat), window(m, k - 1)))
    }
}

/// The first 32 bytes of the state, lane by lane, low byte first.
pub open spec fn squeeze(s: Seq<u64>) -> Seq<u8> {
    Seq::new(DIGEST_LEN as nat, |i: int| (s[i / 8] >> (((i % 8) * 8) as u64)) as u8)
}

/// The Keccak-256 digest of `m`.
pub open spec fn keccak256(m: Seq<u8>) -> Seq<u8> {
    squeeze(state_after(m, num_windows(m.len())))
}

/// How many bytes of lane `l` the first `i` positions of a window reach.
spec fn bytes_reached(i: int, l: int) -> nat {
    if i <= l * 8 {
        0
    } else if i >= l * 8 + 8 {
        8
    } else {
        (i - l * 8) as nat
    }
}

/// The state with the first `i` bytes of window `w` XORed in.
spec fn absorb_prefix(s: Seq<u64>, w: Seq<u8>, i: int) -> Seq<u64> {
    Seq::new(
        LANES as nat,
        |l: int| if l < RATE_LANES { s[l] ^ lane_xor(w, l, bytes_reached(i, l)) } else { s[l] },
    )
}

/// Absorbing no byte leaves the state as it was; absorbing all of them is `absorb`.
proof fn lemma_absorb_prefix_ends(s: Seq<u64>, w: Seq<u8>)
    requires
        s.len() == LANES,
    ensures
        absorb_prefix(s, w, 0) == s,
        absorb_prefix(s, w, RATE as int) == absorb(s, w),
{
    assert forall|l: int| 0 <= l < LANES implies #[trigger] absorb_prefix(s, w, 0)[l] == s[l] by {
        let x = s[l];
        assert(x ^ 0u64 == x) by (bit_vector);
    }
    assert(absorb_prefix(s, w, 0) =~= s);
    assert(absorb_prefix(s, w, RATE as int) =~= absorb(s, w));
}

/// XORing byte `i` into its lane extends the absorbed prefix by one byte.
proof fn lemma_absorb_step(s: Seq<u64>, w: Seq<u8>, i: int)
    requires
        s.len() == LANES,
        w.len() == RATE,
        0 <= i < RATE,
    ensures
        ({
            let a = absorb_prefix(s, w, i);
            a.update(i / 8, a[i / 8] ^ byte_in_lane(w[i], i % 8))
        }) == absorb_prefix(s, w, i + 1),
{
    let a = absorb_prefix(s, w, i);
    let b = absorb_prefix(s, w, i + 1);
    let l = i / 8;
    let k = i % 8;
    assert(bytes_reached(i, l) == k);
    assert(bytes_reached(i + 1, l) == k + 1);
    assert(l * 8 + (k + 1) - 1 == i);
    assert(lane_xor(w, l, (k + 1) as nat) == lane_xor(w, l, k as nat) ^ byte_in_lane(w[i], k));
    let x = s[l];
    let y = lane_xor(w, l, k as nat);
    let z = byte_in_lane(w[i], k);
    assert((x ^ y) ^ z == x ^ (y ^ z)) by (bit_vector);
    assert(a.update(l, a[l] ^ z) =~= b);
}

/// XORs byte `b` into position `i` of the state: lane `i / 8`, shifted by
/// `(i % 8) * 8` bits.
fn xor_into_state(state: &mut [u64; 25], i: usize, b: u8)
    requires
        i < RATE,
    ensures
        final(state)@ == old(state)@.update(
            (i / 8) as int,
            old(state)@[(i / 8) as int] ^ byte_in_lane(b, (i % 8) as int),
        ),
{
    let shift: u64 = ((i % 8) * 8) as u64;
    state[i / 8] = state[i / 8] ^ ((b as u64) << shift);
}

/// XORs window `k` of the padded input into the state, byte by byte: input
/// bytes while they last, then the padding markers.
fn absorb_window(state: &mut [u64; 25], input: &[u8], k: usize)
    requires
        k < num_windows(input@.len()),
    ensures
        final(state)@ == absorb(old(state)@, window(input@, k as int)),
{
    let len: usize = input.len();
    let ghost m = input@;
    let ghost w = window(m, k as int);
    let ghost s0 = state@;
    proof {
        vstd::arithmetic::div_mod::lemma_fundamental_div_mod(m.len() as int, RATE as int);
        lemma_absorb_prefix_ends(s0, w);
        let q = m.len() / (RATE as nat);
        assert(k * RATE <= q * RATE) by (nonlinear_arith)
            requires
                k <= q,
        ;
    }
    let start: usize = k * RATE;
    let rest: usize = len - start;
    for i in 0..RATE
        invariant
            m == input@,
            len == m.len(),
            w == window(m, k as int),
            s0.len() == LANES,
            k < num_windows(m.len()),
            start == k * RATE,
            start <= m.len(),
            rest == m.len() - start,
            m.len() == (m.len() / (RATE as nat)) * RATE + m.len() % (RATE as nat),
            state@ == absorb_prefix(s0, w, i as int),
    {
        let b: u8 = if i < rest {
            input[start + i]
        } else {
            let first: u8 = if i == len % RATE {
                0x01
            } else {
                0
            };
            let last: u8 = if i == RATE - 1 {
                0x80
            } else {
                0
            };
            assert(0u8 ^ 0u8 == 0u8 && 1u8 ^ 0u8 == 1u8 && 0u8 ^ 0x80u8 == 0x80u8 && 1u8 ^ 0x80u8
                == 0x81u8) by (bit_vector);
            first ^ last
        };
        assert(b == w[i as int]);
        xor_into_state(state, i, b);
        proof {
            lemma_absorb_step(s0, w, i as int);
        }
    }
}

/// Reads the digest out of the state: byte `i` is byte `i % 8` of lane `i / 8`.
fn squeeze_state(state: &[u64; 25]) -> (digest: [u8; 32])
    ensures
        digest@ == squeeze(state@),
{
    let mut digest = [0u8; 32];
    for i in 0..DIGEST_LEN
        invariant
            digest@.len() == DIGEST_LEN,
            forall|j: int| 0 <= j < i ==> digest@[j] == #[trigger] squeeze(state@)[j],
    {
        digest[i] = (state[i / 8] >> (((i % 8) * 8) as u64)) as u8;
    }
    assert(digest@ =~= squeeze(state@));
    digest
}

/// The Keccak-256 digest of `input`: pad it, absorb it window by window with
/// a permutation after each, and squeeze 32 bytes.
pub fn raw_keccak(input: &[u8]) -> (digest: [u8; 32])
    ensures
        digest@ == keccak256(input@),
{
    let mut state = [0u64; 25];
    assert(state@ =~= zero_state());
    let windows: usize = input.len() / RATE + 1;
    for k in 0..windows
        invariant
            windows == num_windows(input@.len()),
            state@ == state_after(input@, k as nat),
    {
        absorb_window(&mut state, input, k);
        let ghost absorbed = state@;
        permute(&mut state);
        assert(state@ =~= permutation(absorbed));
    }
    squeeze_state(&state)
}

} // verus!
