use vstd::prelude::*;

use crate::sponge::{
    absorb, keccak256, num_windows, padded, padded_byte, permutation, state_after, window, LANES,
    RATE,
};

verus! {

/// The window that an input filling whole windows ends with: `0x01`, zeros,
/// and `0x80`.
pub open spec fn padding_window() -> Seq<u8> {
    Seq::new(
        RATE as nat,
        |i: int|
            if i == 0 {
                0x01u8
            } else if i == RATE - 1 {
                0x80u8
            } else {
                0u8
            },
    )
}

/// Hashing the same bytes twice gives the same digest.
pub proof fn lemma_digest_deterministic(a: Seq<u8>, b: Seq<u8>)
    requires
        a == b,
    ensures
        keccak256(a) == keccak256(b),
{
}

/// An input whose length is a multiple of the rate is absorbed as its own
/// data windows followed by a window of padding alone, which is not the
/// all-zero window.
pub proof fn lemma_full_windows_padding(m: Seq<u8>)
    requires
        m.len() % (RATE as nat) == 0,
    ensures
        num_windows(m.len()) == m.len() / (RATE as nat) + 1,
        forall|k: int|
            0 <= k < m.len() / (RATE as nat) ==> #[trigger] window(m, k) == m.subrange(
                k * RATE,
                k * RATE + RATE,
            ),
        window(m, (m.len() / (RATE as nat)) as int) == padding_window(),
        padding_window() != Seq::new(RATE as nat, |i: int| 0u8),
{
    let q = m.len() / (RATE as nat);
    assert(m.len() == q * RATE);
    assert forall|k: int| 0 <= k < q implies #[trigger] window(m, k) == m.subrange(
        k * RATE,
        k * RATE + RATE,
    ) by {
        assert(window(m, k) =~= m.subrange(k * RATE, k * RATE + RATE));
    }
    assert(window(m, q as int) =~= padding_window());
    assert(padding_window()[0] != Seq::new(RATE as nat, |i: int| 0u8)[0]);
}

proof fn lemma_padding_apart_by_length(a: Seq<u8>, b: Seq<u8>)
    requires
        a.len() < b.len(),
    ensures
        padded(a) != padded(b),
{
    if num_windows(a.len()) == num_windows(b.len()) {
        let j = b.len() as int;
        assert(j < num_windows(b.len()) * RATE) by {
            vstd::arithmetic::div_mod::lemma_fundamental_div_mod(b.len() as int, RATE as int);
        }
        assert(padded(a)[j] == padded_byte(a, j));
        assert(padded(b)[j] == padded_byte(b, j));
        assert(padded_byte(b, j) == 0x01 || padded_byte(b, j) == 0x81);
        assert(padded_byte(a, j) == 0x00 || padded_byte(a, j) == 0x80);
    } else {
        assert(padded(a).len() != padded(b).len());
    }
}

/// Padding keeps inputs apart: distinct inputs have distinct padded forms.
pub proof fn lemma_padding_injective(a: Seq<u8>, b: Seq<u8>)
    requires
        a != b,
    ensures
        padded(a) != padded(b),
{
    if a.len() < b.len() {
        lemma_padding_apart_by_length(a, b);
    } else if b.len() < a.len() {
        lemma_padding_apart_by_length(b, a);
    } else {
        if forall|i: int| 0 <= i < a.len() ==> a[i] == b[i] {
            assert(a =~= b);
        }
        let i = choose|i: int| 0 <= i < a.len() && a[i] != b[i];
        assert(padded(a)[i] != padded(b)[i]);
    }
}

/// The state keeps its 25 lanes after every window: the absorption and the
/// permutation neither grow nor shrink it.
pub proof fn lemma_state_lanes(m: Seq<u8>, k: nat)
    ensures
        state_after(m, k).len() == LANES,
        absorb(state_after(m, k), window(m, k as int)).len() == LANES,
        permutation(absorb(state_after(m, k), window(m, k as int))).len() == LANES,
{
}

} // verus!
