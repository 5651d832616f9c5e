use vstd::prelude::*;

verus! {

/// What Keccak-f[1600] (24 rounds) makes of a state of 25 lanes.
pub uninterp spec fn keccak_f(lanes: Seq<u64>) -> Seq<u64>;

/// Relies on `tiny_keccak::keccakf`: it applies Keccak-f[1600] to the 25
/// lanes in place and returns; the result depends on the lanes alone.
#[verifier::external_body]
pub(crate) fn permute(state: &mut [u64; 25])
    ensures
        final(state)@ == keccak_f(old(state)@),
{
    tiny_keccak::keccakf(state)
}

} // verus!
