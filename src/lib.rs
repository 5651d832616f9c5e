//! Keccak-256 as a hand-written sponge over the Keccak-f[1600] permutation,
//! with a validator that holds its digest against two independent hashers.

pub mod permutation;
pub mod sponge;
pub mod oracle;
pub mod validate;
pub mod theorems;
