//! Key derivation, elliptic-curve signatures and symmetric ciphers.
use vstd::prelude::*;

pub mod kdf;
pub mod secp256k1;
pub mod symmetric;

verus! {

/// Length of a derived key, in bytes.
pub const KEY_LENGTH: usize = 32;

/// Length of the AES part of a derived key, in bytes.
pub const KEY_LENGTH_AES: usize = 16;

} // verus!
